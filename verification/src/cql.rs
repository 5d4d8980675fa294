//! The query expression algebra and its textual form.
//!
//! A [`Query`] is a finite tree. Its leaves are search clauses (a field, a
//! relation and one or more terms) and its inner nodes join two subtrees with
//! a boolean operator. [`Query::to_string`] writes the tree in the grammar
//! that the search service accepts; [`cql_text`] is the mathematical
//! definition of that text.

use crate::text::{join, joined, joined_len, total_len, views};
use vstd::prelude::*;
use vstd::string::StringExecFns;

verus! {

/// How the terms of a search clause relate to the searched field.
#[derive(Debug, Clone, Copy, PartialEq, Eq)]
pub enum Relation {
    /// Every term must occur.
    All,
    /// At least one term must occur.
    Any,
    /// The field must match the terms exactly.
    Equal,
}

impl Relation {
    /// The symbol that stands for the relation in query text.
    pub open spec fn symbol(self) -> Seq<char> {
        match self {
            Relation::All => seq!['a', 'l', 'l'],
            Relation::Any => seq!['a', 'n', 'y'],
            Relation::Equal => seq!['='],
        }
    }

    /// The relation's symbol as a string slice.
    pub fn as_str(&self) -> (s: &'static str)
        ensures
            s@ == self.symbol(),
    {
        proof {
            reveal_strlit("all");
            reveal_strlit("any");
            reveal_strlit("=");
        }
        match self {
            Relation::All => {
                assert("all"@ =~= seq!['a', 'l', 'l']);
                "all"
            },
            Relation::Any => {
                assert("any"@ =~= seq!['a', 'n', 'y']);
                "any"
            },
            Relation::Equal => {
                assert("="@ =~= seq!['=']);
                "="
            },
        }
    }
}

/// The operator that joins the two sides of a combination.
#[derive(Debug, Clone, Copy, PartialEq, Eq)]
pub enum Boolean {
    /// Both sides must match.
    And,
    /// Either side may match.
    Or,
    /// The left side must match and the right side must not.
    Not,
}

impl Boolean {
    /// The keyword that stands for the operator in query text.
    pub open spec fn keyword(self) -> Seq<char> {
        match self {
            Boolean::And => seq!['a', 'n', 'd'],
            Boolean::Or => seq!['o', 'r'],
            Boolean::Not => seq!['n', 'o', 't'],
        }
    }

    /// The operator's keyword as a string slice.
    pub fn as_str(&self) -> (s: &'static str)
        ensures
            s@ == self.keyword(),
    {
        proof {
            reveal_strlit("and");
            reveal_strlit("or");
            reveal_strlit("not");
        }
        match self {
            Boolean::And => {
                assert("and"@ =~= seq!['a', 'n', 'd']);
                "and"
            },
            Boolean::Or => {
                assert("or"@ =~= seq!['o', 'r']);
                "or"
            },
            Boolean::Not => {
                assert("not"@ =~= seq!['n', 'o', 't']);
                "not"
            },
        }
    }
}

/// The name of the field that a search clause looks in, such as `question`
/// or `anywhere`. It is written into query text as it stands.
#[derive(Debug, PartialEq, Eq)]
pub struct Index(String);

impl View for Index {
    type V = Seq<char>;

    closed spec fn view(&self) -> Seq<char> {
        self.0@
    }
}

impl Index {
    /// The field name as a string slice.
    pub fn as_str(&self) -> (s: &str)
        ensures
            s@ == self@,
    {
        self.0.as_str()
    }
}

impl Clone for Index {
    fn clone(&self) -> (copy: Index)
        ensures
            copy@ == self@,
    {
        Index(self.0.clone())
    }
}

impl From<&str> for Index {
    fn from(value: &str) -> (index: Index)
        ensures
            index@ == value@,
    {
        Index(value.to_owned())
    }
}

// No specification can build a `String`, so the conversion has no `from_spec`
// to obey: what `from` returns is stated in its own contract.
impl vstd::std_specs::convert::FromSpecImpl<&str> for Index {
    open spec fn obeys_from_spec() -> bool {
        false
    }

    open spec fn from_spec(v: &str) -> Index {
        arbitrary()
    }
}

/// Raised when a search clause is built without any term.
#[derive(Debug, Clone, Copy, PartialEq, Eq)]
pub struct ConstructionError;

/// A search expression.
#[derive(Debug, PartialEq, Eq)]
pub enum Query {
    /// A single search clause.
    SearchClause { index: Index, relation: Relation, search_term: Vec<String> },
    /// Two expressions joined by a boolean operator.
    ScopedClause { left: Box<Query>, boolean: Boolean, right: Box<Query> },
}

/// The mathematical value of a [`Query`].
pub ghost enum QueryView {
    Leaf { field: Seq<char>, relation: Relation, terms: Seq<Seq<char>> },
    Combination { left: Box<QueryView>, operator: Boolean, right: Box<QueryView> },
}

/// The character sequences of a list of string slices.
pub open spec fn slice_views(terms: Seq<&str>) -> Seq<Seq<char>> {
    Seq::new(terms.len(), |i: int| terms[i]@)
}

/// The terms joined by single spaces.
pub open spec fn join_terms(terms: Seq<Seq<char>>) -> Seq<char> {
    joined(terms, seq![' '])
}

/// The text of a query in the grammar of the search service.
///
/// A leaf is its field, its relation symbol and its terms, separated by
/// single spaces. A combination is its left side, the operator keyword and
/// its right side; the right side stands in parentheses exactly when it is
/// itself a combination, and the left side never does.
pub open spec fn cql_text(q: QueryView) -> Seq<char>
    decreases q,
{
    match q {
        QueryView::Leaf { field, relation, terms } => field + seq![' '] + relation.symbol()
            + seq![' '] + join_terms(terms),
        QueryView::Combination { left, operator, right } => cql_text(*left) + seq![' ']
            + operator.keyword() + seq![' '] + if *right is Combination {
            seq!['(', ' '] + cql_text(*right) + seq![' ', ')']
        } else {
            cql_text(*right)
        },
    }
}

/// Every leaf of the tree has at least one term.
pub open spec fn well_formed(q: QueryView) -> bool
    decreases q,
{
    match q {
        QueryView::Leaf { terms, .. } => terms.len() > 0,
        QueryView::Combination { left, right, .. } => well_formed(*left) && well_formed(*right),
    }
}

impl Query {
    /// The mathematical value of the expression.
    pub open spec fn model(self) -> QueryView
        decreases self,
    {
        match self {
            Query::SearchClause { index, relation, search_term } => QueryView::Leaf {
                field: index@,
                relation,
                terms: views(search_term@),
            },
            Query::ScopedClause { left, boolean, right } => QueryView::Combination {
                left: Box::new(left.model()),
                operator: boolean,
                right: Box::new(right.model()),
            },
        }
    }
}

impl View for Query {
    type V = QueryView;

    open spec fn view(&self) -> QueryView {
        self.model()
    }
}

/// What building a leaf from the given parts yields: the leaf, or a
/// construction error when there is no term.
pub open spec fn leaf_of(field: Seq<char>, relation: Relation, terms: Seq<Seq<char>>) -> Result<
    QueryView,
    ConstructionError,
> {
    if terms.len() == 0 {
        Err(ConstructionError)
    } else {
        Ok(QueryView::Leaf { field, relation, terms })
    }
}

/// The combination of two expressions under an operator.
pub open spec fn combine(left: QueryView, operator: Boolean, right: QueryView) -> QueryView {
    QueryView::Combination { left: Box::new(left), operator, right: Box::new(right) }
}

/// The mathematical value of the outcome of a construction.
pub open spec fn built_view(built: Result<Query, ConstructionError>) -> Result<
    QueryView,
    ConstructionError,
> {
    match built {
        Ok(q) => Ok(q@),
        Err(e) => Err(e),
    }
}

/// The field name under which the whole record is searched.
pub open spec fn anywhere() -> Seq<char> {
    seq!['a', 'n', 'y', 'w', 'h', 'e', 'r', 'e']
}

fn owned_terms(search_term: &[&str]) -> (terms: Vec<String>)
    ensures
        views(terms@) == slice_views(search_term@),
{
    let mut terms: Vec<String> = Vec::new();
    let mut i: usize = 0;
    while i < search_term.len()
        invariant
            i <= search_term@.len(),
            terms@.len() == i,
            forall|k: int| 0 <= k < i ==> (#[trigger] terms@[k])@ == search_term@[k]@,
        decreases search_term@.len() - i,
    {
        terms.push(search_term[i].to_owned());
        i += 1;
    }
    assert(views(terms@) =~= slice_views(search_term@));
    terms
}

impl Query {
    /// A search clause on `index` with the given relation and terms.
    ///
    /// The grammar of the service asks for at least one term: with none the
    /// construction fails.
    pub fn leaf(index: &str, relation: Relation, search_term: &[&str]) -> (built: Result<
        Query,
        ConstructionError,
    >)
        ensures
            built_view(built) == leaf_of(index@, relation, slice_views(search_term@)),
            built is Err <==> search_term@.len() == 0,
            built matches Ok(q) ==> well_formed(q@),
    {
        if search_term.len() == 0 {
            return Err(ConstructionError);
        }
        Ok(
            Query::SearchClause {
                index: Index::from(index),
                relation,
                search_term: owned_terms(search_term),
            },
        )
    }

    /// A clause that matches the terms exactly, anywhere in a record.
    pub fn new(search_term: &[&str]) -> (built: Result<Query, ConstructionError>)
        ensures
            built_view(built) == leaf_of(
                anywhere(),
                Relation::Equal,
                slice_views(search_term@),
            ),
            built is Err <==> search_term@.len() == 0,
            built matches Ok(q) ==> well_formed(q@),
    {
        proof {
            reveal_strlit("anywhere");
            assert("anywhere"@ =~= anywhere());
        }
        Query::leaf("anywhere", Relation::Equal, search_term)
    }

    /// A clause that asks for every one of the terms in `index`.
    pub fn all(index: &str, search_term: &[&str]) -> (built: Result<Query, ConstructionError>)
        ensures
            built_view(built) == leaf_of(index@, Relation::All, slice_views(search_term@)),
            built is Err <==> search_term@.len() == 0,
            built matches Ok(q) ==> well_formed(q@),
    {
        Query::leaf(index, Relation::All, search_term)
    }

    /// A clause that asks for at least one of the terms in `index`.
    pub fn any(index: &str, search_term: &[&str]) -> (built: Result<Query, ConstructionError>)
        ensures
            built_view(built) == leaf_of(index@, Relation::Any, slice_views(search_term@)),
            built is Err <==> search_term@.len() == 0,
            built matches Ok(q) ==> well_formed(q@),
    {
        Query::leaf(index, Relation::Any, search_term)
    }

    /// A clause that asks `index` to match the terms exactly.
    pub fn equal(index: &str, search_term: &[&str]) -> (built: Result<Query, ConstructionError>)
        ensures
            built_view(built) == leaf_of(index@, Relation::Equal, slice_views(search_term@)),
            built is Err <==> search_term@.len() == 0,
            built matches Ok(q) ==> well_formed(q@),
    {
        Query::leaf(index, Relation::Equal, search_term)
    }

    /// Both this expression and `right` must match.
    pub fn and(self, right: Query) -> (joined: Query)
        ensures
            joined@ == combine(self@, Boolean::And, right@),
            well_formed(joined@) == (well_formed(self@) && well_formed(right@)),
    {
        Query::ScopedClause { left: Box::new(self), boolean: Boolean::And, right: Box::new(right) }
    }

    /// This expression or `right` must match.
    pub fn or(self, right: Query) -> (joined: Query)
        ensures
            joined@ == combine(self@, Boolean::Or, right@),
            well_formed(joined@) == (well_formed(self@) && well_formed(right@)),
    {
        Query::ScopedClause { left: Box::new(self), boolean: Boolean::Or, right: Box::new(right) }
    }

    /// This expression must match and `right` must not.
    pub fn not(self, right: Query) -> (joined: Query)
        ensures
            joined@ == combine(self@, Boolean::Not, right@),
            well_formed(joined@) == (well_formed(self@) && well_formed(right@)),
    {
        Query::ScopedClause { left: Box::new(self), boolean: Boolean::Not, right: Box::new(right) }
    }

    /// The expression as query text.
    pub fn to_string(&self) -> (text: String)
        ensures
            text@ == cql_text(self@),
        decreases self,
    {
        proof {
            reveal_strlit(" ");
            reveal_strlit("( ");
            reveal_strlit(" )");
            assert(" "@ =~= seq![' ']);
            assert("( "@ =~= seq!['(', ' ']);
            assert(" )"@ =~= seq![' ', ')']);
        }
        match self {
            Query::SearchClause { index, relation, search_term } => {
                let mut text = index.as_str().to_owned();
                text.append(" ");
                text.append(relation.as_str());
                text.append(" ");
                text.append(join(search_term, " ").as_str());
                assert(text@ =~= cql_text(self@));
                text
            },
            Query::ScopedClause { left, boolean, right } => {
                let mut text = left.to_string();
                text.append(" ");
                text.append(boolean.as_str());
                text.append(" ");
                let ghost head = text@;
                match &**right {
                    Query::SearchClause { .. } => {
                        text.append(right.to_string().as_str());
                        assert(text@ =~= head + cql_text(right@));
                    },
                    Query::ScopedClause { .. } => {
                        text.append("( ");
                        text.append(right.to_string().as_str());
                        text.append(" )");
                        assert(text@ =~= head + (seq!['(', ' '] + cql_text(right@) + seq![' ', ')']));
                    },
                }
                assert(text@ =~= cql_text(self@));
                text
            },
        }
    }
}

impl Clone for Query {
    fn clone(&self) -> (copy: Query)
        ensures
            copy@ == self@,
        decreases self,
    {
        match self {
            Query::SearchClause { index, relation, search_term } => {
                let terms = search_term.clone();
                assert(views(terms@) =~= views(search_term@));
                Query::SearchClause { index: index.clone(), relation: *relation, search_term: terms }
            },
            Query::ScopedClause { left, boolean, right } => Query::ScopedClause {
                left: Box::new((&**left).clone()),
                boolean: *boolean,
                right: Box::new((&**right).clone()),
            },
        }
    }
}

/// The text of a leaf is its field, its relation symbol and its terms, in
/// that order and separated by single spaces; nothing else is inserted.
/// The terms themselves are joined left to right with one space between
/// neighbours.
pub proof fn leaf_text_is_field_relation_terms(
    field: Seq<char>,
    relation: Relation,
    terms: Seq<Seq<char>>,
)
    requires
        terms.len() > 0,
    ensures
        leaf_of(field, relation, terms) is Ok,
        cql_text(leaf_of(field, relation, terms)->Ok_0) == field + seq![' '] + relation.symbol()
            + seq![' '] + join_terms(terms),
        join_terms(terms) == if terms.len() == 1 {
            terms[0]
        } else {
            join_terms(terms.drop_last()) + seq![' '] + terms.last()
        },
        join_terms(terms).len() == total_len(terms) + terms.len() - 1,
{
    joined_len(terms, seq![' ']);
    assert(seq![' '].len() == 1);
    assert((terms.len() - 1) * 1 == terms.len() - 1);
}

/// Under any operator, a right operand that is a leaf is written bare.
pub proof fn leaf_operand_is_bare(left: QueryView, operator: Boolean, right: QueryView)
    requires
        right is Leaf,
    ensures
        cql_text(combine(left, operator, right)) == cql_text(left) + seq![' ']
            + operator.keyword() + seq![' '] + cql_text(right),
{
}

/// Under any operator, a right operand that is itself a combination is
/// written between `( ` and ` )`; the left operand never is.
pub proof fn combined_operand_is_parenthesized(
    left: QueryView,
    operator: Boolean,
    right: QueryView,
)
    requires
        right is Combination,
    ensures
        cql_text(combine(left, operator, right)) == cql_text(left) + seq![' ']
            + operator.keyword() + seq![' '] + seq!['(', ' '] + cql_text(right) + seq![' ', ')'],
{
    assert(cql_text(combine(left, operator, right)) =~= cql_text(left) + seq![' ']
        + operator.keyword() + seq![' '] + seq!['(', ' '] + cql_text(right) + seq![' ', ')']);
}

/// Joining `left` and a leaf with `and` gives the text of `left`, then
/// ` and `, then the text of the leaf, without parentheses.
pub proof fn and_with_leaf(left: QueryView, right: QueryView)
    requires
        right is Leaf,
    ensures
        cql_text(combine(left, Boolean::And, right)) == cql_text(left) + seq![
            ' ',
            'a',
            'n',
            'd',
            ' ',
        ] + cql_text(right),
{
    assert(cql_text(combine(left, Boolean::And, right)) =~= cql_text(left) + seq![
        ' ',
        'a',
        'n',
        'd',
        ' ',
    ] + cql_text(right));
}

/// Joining `left` and a combination with `and` gives the text of `left`,
/// then ` and ( `, then the text of the combination, then ` )`.
pub proof fn and_with_combination(left: QueryView, right: QueryView)
    requires
        right is Combination,
    ensures
        cql_text(combine(left, Boolean::And, right)) == cql_text(left) + seq![
            ' ',
            'a',
            'n',
            'd',
            ' ',
            '(',
            ' ',
        ] + cql_text(right) + seq![' ', ')'],
{
    assert(cql_text(combine(left, Boolean::And, right)) =~= cql_text(left) + seq![
        ' ',
        'a',
        'n',
        'd',
        ' ',
        '(',
        ' ',
    ] + cql_text(right) + seq![' ', ')']);
}

/// A leaf cannot be built from an empty list of terms, whatever the field
/// and the relation.
pub proof fn leaf_without_terms_is_refused(field: Seq<char>, relation: Relation)
    ensures
        leaf_of(field, relation, Seq::empty()) == Err::<QueryView, ConstructionError>(
            ConstructionError,
        ),
{
}

} // verus!
