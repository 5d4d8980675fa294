//! Result pages: the records they hold, how one item is told apart from
//! another by the slot it fills, and how a response body that was read
//! against both schemas resolves into a page or an error.

use crate::date::{Date, DateTime};
use crate::error::{ApiErrors, DecodeFailure, Error};
use crate::text::{join, joined, views};
use vstd::prelude::*;
use vstd::std_specs::iter::IteratorSpec;
use vstd::string::StringExecFns;

verus! {

/// A classification of a record.
#[derive(Debug, Clone, PartialEq, Eq)]
pub struct Class {
    /// The classification scheme.
    pub class_type: String,
    /// The edition of the scheme.
    pub version: Option<String>,
    /// The class number.
    pub class: String,
}

/// A source that a record refers to.
#[derive(Debug, Clone, PartialEq, Eq)]
pub struct Bibl {
    /// The bibliographic description.
    pub bibl_desc: Option<String>,
    /// The ISBN.
    pub bibl_isbn: Option<String>,
    /// A remark on the source.
    pub bibl_note: Option<String>,
}

/// What the database itself records about a reference, a manual or a
/// collection.
#[derive(Debug, Clone, PartialEq, Eq)]
pub struct System {
    /// When the record was registered.
    pub reg_date: DateTime,
    /// When the record was last changed.
    pub lst_date: DateTime,
    /// The registration number, unique among all records.
    pub sys_id: String,
    /// The code of the library that provided the record.
    pub lib_id: String,
    /// The name of that library.
    pub lib_name: String,
    /// The number of files attached to the record.
    pub file_num: u32,
}

/// What the database itself records about a library profile.
#[derive(Debug, Clone, PartialEq, Eq)]
pub struct LibSystem {
    /// When the profile was registered.
    pub reg_date: DateTime,
    /// When the profile was last changed.
    pub lst_date: DateTime,
    /// The library's code, unique among all profiles.
    pub lib_id: String,
    /// The library's formal name.
    pub lib_name: String,
    /// The number of files attached to the profile.
    pub file_num: u32,
}

/// A reference case: a question put to a library and its answer.
#[derive(Debug, Clone, PartialEq, Eq)]
pub struct Reference {
    pub question: String,
    /// The providing library's own number for the case.
    pub reg_id: String,
    pub answer: String,
    /// When the case was written; `None` where the library gave no date.
    pub crt_date: Option<Date>,
    /// Whether the question was resolved.
    pub solution: Option<bool>,
    pub keyword: Option<Vec<String>>,
    pub class: Option<Vec<Class>>,
    /// The kind of research done.
    pub res_type: Option<String>,
    /// The kind of subject.
    pub con_type: Option<String>,
    pub bibl: Option<Vec<Bibl>>,
    /// How the answer was found.
    pub ans_proc: Option<String>,
    /// Where the question was referred to.
    pub referral: Option<Vec<String>>,
    /// What the patron had looked into before asking.
    pub pre_res: Option<String>,
    pub note: Option<String>,
    /// The kind of patron.
    pub ptn_type: Option<String>,
    /// Who contributed to the answer.
    pub contri: Option<Vec<String>>,
    pub system: System,
    /// The address of the public page of the case.
    pub url: String,
}

/// A research guide.
#[derive(Debug, Clone, PartialEq, Eq)]
pub struct Manual {
    pub theme: String,
    /// The providing library's own number for the guide.
    pub reg_id: String,
    pub guide: String,
    /// When the guide was written; `None` where the library gave no date.
    pub crt_date: Option<Date>,
    /// Whether the guide is complete.
    pub completion: Option<bool>,
    pub keyword: Option<Vec<String>>,
    pub class: Option<Vec<Class>>,
    pub bibl: Option<Vec<Bibl>>,
    pub note: Option<String>,
    pub system: System,
    /// The address of the public page of the guide.
    pub url: String,
}

/// A special collection.
#[derive(Debug, Clone, PartialEq, Eq)]
pub struct Collection {
    pub col_name: String,
    /// The reading of the collection's name.
    pub pro_key: String,
    /// The providing library's own number for the collection.
    pub reg_id: String,
    pub outline: String,
    pub origin: Option<String>,
    /// The terms of use.
    pub restriction: Option<String>,
    pub catalog: Option<String>,
    pub literature: Option<String>,
    /// The number of items held.
    pub number: Option<String>,
    /// Whether the collection is still growing.
    pub collection_continue: Option<bool>,
    pub keyword: Option<Vec<String>>,
    pub class: Option<Vec<Class>>,
    pub note: Option<String>,
    pub system: System,
    /// The address of the public page of the collection.
    pub url: String,
}

/// The profile of a member library.
#[derive(Debug, Clone, PartialEq, Eq)]
pub struct Profile {
    /// The code of the kind of library.
    pub lib_type: String,
    /// The formal name.
    pub lib_name: String,
    /// The short name.
    pub abbr: String,
    /// The reading of the name.
    pub pro_key: String,
    pub zip_code: String,
    pub add_pref: String,
    pub add_city: String,
    pub add_street: String,
    pub tel1: String,
    pub tel1_note: Option<String>,
    pub tel2: Option<String>,
    pub tel2_note: Option<String>,
    pub tel3: Option<String>,
    pub tel3_note: Option<String>,
    pub fax: Option<String>,
    pub e_mail: Option<String>,
    pub lib_url: Option<String>,
    pub open_info: Option<String>,
    /// The terms of use.
    pub restriction: Option<String>,
    /// The library's history.
    pub outline: Option<String>,
    pub feature: Option<String>,
    pub notes: Option<String>,
    pub access: Option<String>,
    /// The ISIL; several may stand here, joined.
    pub isil: Option<String>,
    pub system: LibSystem,
    /// The address of the public page of the profile.
    pub url: String,
}

/// The four kinds of record, in the order in which a slot is searched for
/// them.
#[derive(Debug, Clone, Copy, PartialEq, Eq, Structural)]
pub enum RecordKind {
    Reference,
    Manual,
    Collection,
    Profile,
}

impl RecordKind {
    /// The name of the kind, as it stands in a slot.
    pub open spec fn name(self) -> Seq<char> {
        match self {
            RecordKind::Reference => "reference"@,
            RecordKind::Manual => "manual"@,
            RecordKind::Collection => "collection"@,
            RecordKind::Profile => "profile"@,
        }
    }

    /// The name of the kind, as it stands in a slot.
    pub fn as_str(&self) -> (name: &'static str)
        ensures
            name@ == self.name(),
    {
        match self {
            RecordKind::Reference => "reference",
            RecordKind::Manual => "manual",
            RecordKind::Collection => "collection",
            RecordKind::Profile => "profile",
        }
    }
}

/// One item of a result page.
#[derive(Debug, Clone, PartialEq, Eq)]
pub enum ResultItem {
    Reference(Reference),
    Manual(Manual),
    Collection(Collection),
    Profile(Profile),
}

/// One slot of a result page as it comes off the wire: four places, one
/// for each kind of record, of which the service fills one.
#[derive(Debug, Clone, PartialEq, Eq)]
pub struct ResultSlot {
    pub reference: Option<Reference>,
    pub manual: Option<Manual>,
    pub collection: Option<Collection>,
    pub profile: Option<Profile>,
}

/// A slot with none of its four places filled.
#[derive(Debug, Clone, PartialEq, Eq)]
pub struct MalformedRecord {
    /// The kinds of which one was expected.
    pub expected: Vec<RecordKind>,
}

/// The names of the kinds, each between backticks.
pub open spec fn quoted_names(kinds: Seq<RecordKind>) -> Seq<Seq<char>> {
    Seq::new(kinds.len(), |i: int| "`"@ + kinds[i].name() + "`"@)
}

/// The message for a slot with no place filled: it names the kinds of which
/// one was expected, in their order.
pub open spec fn malformed_message(kinds: Seq<RecordKind>) -> Seq<char> {
    "missing field, expected one of "@ + joined(quoted_names(kinds), ", "@)
}

impl MalformedRecord {
    /// The failure as a message for the user.
    pub fn to_string(&self) -> (text: String)
        ensures
            text@ == malformed_message(self.expected@),
    {
        let mut names: Vec<String> = Vec::new();
        let mut i: usize = 0;
        while i < self.expected.len()
            invariant
                i <= self.expected@.len(),
                names@.len() == i,
                forall|k: int|
                    0 <= k < i ==> (#[trigger] names@[k])@ == "`"@ + self.expected@[k].name()
                        + "`"@,
            decreases self.expected@.len() - i,
        {
            let mut quoted = "`".to_owned();
            quoted.append(self.expected[i].as_str());
            quoted.append("`");
            names.push(quoted);
            i += 1;
        }
        assert(views(names@) =~= quoted_names(self.expected@));
        let mut text = "missing field, expected one of ".to_owned();
        text.append(join(&names, ", ").as_str());
        text
    }
}

/// All four kinds, in the order in which a slot is searched for them.
pub open spec fn all_kinds() -> Seq<RecordKind> {
    seq![RecordKind::Reference, RecordKind::Manual, RecordKind::Collection, RecordKind::Profile]
}

/// The item that a slot stands for: the record in the first filled place,
/// in the order reference, manual, collection, profile. A slot with no
/// place filled stands for none, and the failure names all four kinds.
pub open spec fn item_of(slot: ResultSlot) -> Result<ResultItem, Seq<RecordKind>> {
    if let Some(reference) = slot.reference {
        Ok(ResultItem::Reference(reference))
    } else if let Some(manual) = slot.manual {
        Ok(ResultItem::Manual(manual))
    } else if let Some(collection) = slot.collection {
        Ok(ResultItem::Collection(collection))
    } else if let Some(profile) = slot.profile {
        Ok(ResultItem::Profile(profile))
    } else {
        Err(all_kinds())
    }
}

/// The outcome of resolving a slot, with the failure as the kinds it names.
pub open spec fn resolved_view(resolved: Result<ResultItem, MalformedRecord>) -> Result<
    ResultItem,
    Seq<RecordKind>,
> {
    match resolved {
        Ok(item) => Ok(item),
        Err(e) => Err(e.expected@),
    }
}

impl ResultItem {
    /// Resolves a slot into the item it stands for.
    ///
    /// The record in the first filled place is taken, in the order
    /// reference, manual, collection, profile; further filled places are
    /// passed over. A slot with no place filled is refused.
    pub fn from_slot(slot: ResultSlot) -> (resolved: Result<ResultItem, MalformedRecord>)
        ensures
            resolved_view(resolved) == item_of(slot),
    {
        if let Some(reference) = slot.reference {
            Ok(ResultItem::Reference(reference))
        } else if let Some(manual) = slot.manual {
            Ok(ResultItem::Manual(manual))
        } else if let Some(collection) = slot.collection {
            Ok(ResultItem::Collection(collection))
        } else if let Some(profile) = slot.profile {
            Ok(ResultItem::Profile(profile))
        } else {
            let expected = vec![
                RecordKind::Reference,
                RecordKind::Manual,
                RecordKind::Collection,
                RecordKind::Profile,
            ];
            assert(expected@ =~= all_kinds());
            Err(MalformedRecord { expected })
        }
    }
}

/// A slot with no place filled stands for no item, and the failure names
/// all four kinds of record.
pub proof fn empty_slot_is_malformed(slot: ResultSlot)
    requires
        slot.reference is None,
        slot.manual is None,
        slot.collection is None,
        slot.profile is None,
    ensures
        item_of(slot) == Err::<ResultItem, Seq<RecordKind>>(all_kinds()),
        all_kinds().len() == 4,
        forall|kind: RecordKind| all_kinds().contains(kind),
{
    assert forall|kind: RecordKind| all_kinds().contains(kind) by {
        match kind {
            RecordKind::Reference => assert(all_kinds()[0] == kind),
            RecordKind::Manual => assert(all_kinds()[1] == kind),
            RecordKind::Collection => assert(all_kinds()[2] == kind),
            RecordKind::Profile => assert(all_kinds()[3] == kind),
        }
    }
}

/// A slot with any place filled stands for an item, and the item is of the
/// first kind, in the order of [`all_kinds`], whose place is filled.
pub proof fn filled_slot_is_its_first_record(slot: ResultSlot)
    requires
        slot.reference is Some || slot.manual is Some || slot.collection is Some
            || slot.profile is Some,
    ensures
        item_of(slot) is Ok,
        slot.reference is Some ==> item_of(slot)->Ok_0 == ResultItem::Reference(
            slot.reference->0,
        ),
        slot.reference is None && slot.manual is Some ==> item_of(slot)->Ok_0
            == ResultItem::Manual(slot.manual->0),
        slot.reference is None && slot.manual is None && slot.collection is Some ==> item_of(
            slot,
        )->Ok_0 == ResultItem::Collection(slot.collection->0),
        slot.reference is None && slot.manual is None && slot.collection is None ==> item_of(
            slot,
        )->Ok_0 == ResultItem::Profile(slot.profile->0),
{
}

/// A page of search results.
#[derive(Debug, Clone, PartialEq, Eq)]
pub struct ResultSet {
    /// The number of records that match the request.
    pub hit_num: u32,
    /// The position of the page's first item among all matches, from 1.
    pub results_get_position: u32,
    /// The number of items in the page.
    pub results_num: u32,
    /// The status code that the service sent with the page.
    pub results_cd: u32,
    /// The items, in the order in which the service gave them.
    pub result: Vec<ResultItem>,
}

/// The records that `pick` takes from the items, in the order of the
/// items.
pub open spec fn picked<T>(items: Seq<ResultItem>, pick: spec_fn(ResultItem) -> Option<T>) -> Seq<
    T,
>
    decreases items.len(),
{
    if items.len() == 0 {
        Seq::empty()
    } else {
        let before = picked(items.drop_last(), pick);
        match pick(items.last()) {
            Some(record) => before.push(record),
            None => before,
        }
    }
}

/// The reference cases among the items, in the order of the items.
pub open spec fn references_in(items: Seq<ResultItem>) -> Seq<Reference> {
    picked(
        items,
        |item: ResultItem|
            match item {
                ResultItem::Reference(r) => Some(r),
                _ => None,
            },
    )
}

/// The research guides among the items, in the order of the items.
pub open spec fn manuals_in(items: Seq<ResultItem>) -> Seq<Manual> {
    picked(
        items,
        |item: ResultItem|
            match item {
                ResultItem::Manual(m) => Some(m),
                _ => None,
            },
    )
}

/// The special collections among the items, in the order of the items.
pub open spec fn collections_in(items: Seq<ResultItem>) -> Seq<Collection> {
    picked(
        items,
        |item: ResultItem|
            match item {
                ResultItem::Collection(c) => Some(c),
                _ => None,
            },
    )
}

/// The library profiles among the items, in the order of the items.
pub open spec fn profiles_in(items: Seq<ResultItem>) -> Seq<Profile> {
    picked(
        items,
        |item: ResultItem|
            match item {
                ResultItem::Profile(p) => Some(p),
                _ => None,
            },
    )
}

impl ResultSet {
    /// The number of items in the page.
    pub fn len(&self) -> (n: usize)
        ensures
            n == self.result@.len(),
    {
        self.result.len()
    }

    /// The items of the page, in order.
    pub fn iter(&self) -> (items: core::slice::Iter<'_, ResultItem>)
        ensures
            items.remaining() == self.result@.as_ref(),
    {
        let slice = self.result.as_slice();
        proof {
            vstd::std_specs::slice::axiom_spec_slice_iter(slice);
        }
        slice.iter()
    }

    /// The reference cases of the page, in the order in which they stand
    /// in it.
    pub fn filter_reference(&self) -> (found: Vec<&Reference>)
        ensures
            found@.unref() == references_in(self.result@),
    {
        let mut found: Vec<&Reference> = Vec::new();
        let mut i: usize = 0;
        while i < self.result.len()
            invariant
                i <= self.result@.len(),
                found@.unref() == references_in(self.result@.take(i as int)),
            decreases self.result@.len() - i,
        {
            let ghost before = found@.unref();
            assert(self.result@.take(i + 1).drop_last() =~= self.result@.take(i as int));
            if let ResultItem::Reference(record) = &self.result[i] {
                found.push(record);
                assert(found@.unref() =~= before.push(*record));
            }
            i += 1;
        }
        assert(self.result@.take(self.result@.len() as int) =~= self.result@);
        found
    }

    /// The research guides of the page, in the order in which they stand
    /// in it.
    pub fn filter_manual(&self) -> (found: Vec<&Manual>)
        ensures
            found@.unref() == manuals_in(self.result@),
    {
        let mut found: Vec<&Manual> = Vec::new();
        let mut i: usize = 0;
        while i < self.result.len()
            invariant
                i <= self.result@.len(),
                found@.unref() == manuals_in(self.result@.take(i as int)),
            decreases self.result@.len() - i,
        {
            let ghost before = found@.unref();
            assert(self.result@.take(i + 1).drop_last() =~= self.result@.take(i as int));
            if let ResultItem::Manual(record) = &self.result[i] {
                found.push(record);
                assert(found@.unref() =~= before.push(*record));
            }
            i += 1;
        }
        assert(self.result@.take(self.result@.len() as int) =~= self.result@);
        found
    }

    /// The special collections of the page, in the order in which they
    /// stand in it.
    pub fn filter_collection(&self) -> (found: Vec<&Collection>)
        ensures
            found@.unref() == collections_in(self.result@),
    {
        let mut found: Vec<&Collection> = Vec::new();
        let mut i: usize = 0;
        while i < self.result.len()
            invariant
                i <= self.result@.len(),
                found@.unref() == collections_in(self.result@.take(i as int)),
            decreases self.result@.len() - i,
        {
            let ghost before = found@.unref();
            assert(self.result@.take(i + 1).drop_last() =~= self.result@.take(i as int));
            if let ResultItem::Collection(record) = &self.result[i] {
                found.push(record);
                assert(found@.unref() =~= before.push(*record));
            }
            i += 1;
        }
        assert(self.result@.take(self.result@.len() as int) =~= self.result@);
        found
    }

    /// The library profiles of the page, in the order in which they stand
    /// in it.
    pub fn filter_profile(&self) -> (found: Vec<&Profile>)
        ensures
            found@.unref() == profiles_in(self.result@),
    {
        let mut found: Vec<&Profile> = Vec::new();
        let mut i: usize = 0;
        while i < self.result.len()
            invariant
                i <= self.result@.len(),
                found@.unref() == profiles_in(self.result@.take(i as int)),
            decreases self.result@.len() - i,
        {
            let ghost before = found@.unref();
            assert(self.result@.take(i + 1).drop_last() =~= self.result@.take(i as int));
            if let ResultItem::Profile(record) = &self.result[i] {
                found.push(record);
                assert(found@.unref() =~= before.push(*record));
            }
            i += 1;
        }
        assert(self.result@.take(self.result@.len() as int) =~= self.result@);
        found
    }
}

/// Every item of a page is of exactly one kind: the four filtered views
/// together hold as many records as the page holds items.
pub proof fn views_partition_the_page(items: Seq<ResultItem>)
    ensures
        references_in(items).len() + manuals_in(items).len() + collections_in(items).len()
            + profiles_in(items).len() == items.len(),
    decreases items.len(),
{
    if items.len() > 0 {
        views_partition_the_page(items.drop_last());
    }
}

/// What a response body resolves to, given what came of reading it as a
/// result page and as an error list.
///
/// A body that reads as a result page is that page. One that does not, but
/// reads as an error list, is the service's refusal with every entry of the
/// list in its order. One that reads as neither is a parse failure, and the
/// failure kept is the one met when reading the body as a result page.
pub open spec fn outcome_of(
    page: Result<ResultSet, DecodeFailure>,
    errors: Result<ApiErrors, DecodeFailure>,
) -> Result<ResultSet, Error> {
    match page {
        Ok(found) => Ok(found),
        Err(failure) => Err(failure_of(failure, errors)),
    }
}

/// The error for a body that did not read as a result page, given the
/// failure met and what came of reading the body as an error list.
pub open spec fn failure_of(failure: DecodeFailure, errors: Result<ApiErrors, DecodeFailure>) -> Error {
    match errors {
        Ok(list) => Error::Api(list),
        Err(_) => Error::De(failure),
    }
}

/// Resolves a response body that was read against both schemas.
pub fn resolve(
    page: Result<ResultSet, DecodeFailure>,
    errors: Result<ApiErrors, DecodeFailure>,
) -> (outcome: Result<ResultSet, Error>)
    ensures
        outcome == outcome_of(page, errors),
{
    match page {
        Ok(found) => Ok(found),
        Err(failure) => Err(resolve_failure(failure, errors)),
    }
}

/// Resolves a response body that did not read as a result page: `failure`
/// is what went wrong, `errors` is what came of reading the same body as an
/// error list.
pub fn resolve_failure(failure: DecodeFailure, errors: Result<ApiErrors, DecodeFailure>) -> (error:
    Error)
    ensures
        error == failure_of(failure, errors),
{
    match errors {
        Ok(list) => Error::Api(list),
        Err(_) => Error::De(failure),
    }
}

/// Resolves a response body by reading it against the two schemas in turn.
///
/// The body is read as a result page first. Only if that fails is the same
/// body read as an error list, and the failure of the first reading is
/// resolved by what the second gives.
pub fn resolve_body<P, E>(body: &str, read_page: P, read_errors: E) -> (outcome: Result<
    ResultSet,
    Error,
>) where
    P: FnOnce(&str) -> Result<ResultSet, DecodeFailure>,
    E: FnOnce(&str) -> Result<ApiErrors, DecodeFailure>,

    requires
        call_requires(read_page, (body,)),
        call_requires(read_errors, (body,)),
    ensures
        outcome matches Ok(found) ==> call_ensures(read_page, (body,), Ok(found)),
        outcome matches Err(error) ==> exists|
            failure: DecodeFailure,
            errors: Result<ApiErrors, DecodeFailure>,
        |
            call_ensures(read_page, (body,), Err(failure)) && call_ensures(
                read_errors,
                (body,),
                errors,
            ) && error == failure_of(failure, errors),
{
    match read_page(body) {
        Ok(found) => Ok(found),
        Err(failure) => {
            let errors = read_errors(body);
            Err(resolve_failure(failure, errors))
        },
    }
}

/// A body resolves to exactly one of three outcomes: a result page, the
/// service's refusal or a parse failure. It never resolves to a transport
/// failure.
pub proof fn one_of_three_outcomes(
    page: Result<ResultSet, DecodeFailure>,
    errors: Result<ApiErrors, DecodeFailure>,
)
    ensures
        outcome_of(page, errors) is Ok <==> page is Ok,
        outcome_of(page, errors) matches Err(Error::Api(_)) <==> page is Err && errors is Ok,
        outcome_of(page, errors) matches Err(Error::De(_)) <==> page is Err && errors is Err,
        !(outcome_of(page, errors) matches Err(Error::Request(_))),
{
}

/// A body that reads as a result page resolves to that page, whatever came
/// of reading it as an error list.
pub proof fn page_is_kept(found: ResultSet, errors: Result<ApiErrors, DecodeFailure>)
    ensures
        outcome_of(Ok(found), errors) == Ok::<ResultSet, Error>(found),
{
}

/// A refusal carries the whole error list as it was read: every entry, in
/// its order.
pub proof fn refusal_keeps_every_entry(failure: DecodeFailure, list: ApiErrors)
    ensures
        outcome_of(Err(failure), Ok(list)) == Err::<ResultSet, Error>(Error::Api(list)),
{
}

/// A parse failure carries the failure met when the body was read as a
/// result page, never the one met when it was read as an error list.
pub proof fn parse_failure_is_the_first(failure: DecodeFailure, second: DecodeFailure)
    ensures
        outcome_of(Err(failure), Err(second)) == Err::<ResultSet, Error>(Error::De(failure)),
{
}

} // verus!
