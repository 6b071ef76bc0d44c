//! Research operations: the cross-cutting knowledge store. Records are
//! created, searched and mutated like hierarchy rows — `updated_at` is
//! refreshed on every write — and associated with any hierarchy node
//! through idempotent link and unlink operations.

use vstd::prelude::*;
use vstd::string::StringExecFns;

use crate::db;
use crate::errors::{EntityKind, MemError, ValidationReason};
use crate::model::{
    link_feature_model, link_module_model, link_project_model, link_task_model, remove_research,
    research_ids, research_ids_named, unlink_feature_model, unlink_module_model,
    unlink_project_model, unlink_task_model, ResearchRow, StoreModel,
};
use crate::text::{
    contains_sub, id_string, lower_of, lowercase, spec_contains, spec_i64_string, spec_is_digit,
    spec_trim, trim_str,
};

verus! {

/// A research record, as loaded from the store: cross-cutting reference
/// material that can be associated with any hierarchy node.
#[derive(Debug, PartialEq, Eq)]
pub struct Research {
    pub id: i64,
    pub name: String,
    pub description: String,
    pub content: String,
    pub source: String,
    pub researched_at: String,
    pub created_at: String,
    pub updated_at: String,
}

impl View for Research {
    type V = ResearchRow;

    open spec fn view(&self) -> ResearchRow {
        ResearchRow {
            name: self.name@,
            description: self.description@,
            content: self.content@,
            source: self.source@,
            researched_at: self.researched_at@,
            created_at: self.created_at@,
            updated_at: self.updated_at@,
        }
    }
}

impl Clone for Research {
    fn clone(&self) -> (r: Self)
        ensures
            r == *self,
    {
        Research {
            id: self.id,
            name: self.name.clone(),
            description: self.description.clone(),
            content: self.content.clone(),
            source: self.source.clone(),
            researched_at: self.researched_at.clone(),
            created_at: self.created_at.clone(),
            updated_at: self.updated_at.clone(),
        }
    }
}

/// Whether this value is exactly the row stored under its id.
pub open spec fn research_in(r: Research, s: StoreModel) -> bool {
    s.research.dom().contains(r.id) && s.research[r.id] == r@
}

/// The stores agree except that this one research row was replaced.
pub open spec fn research_row_set(s0: StoreModel, s1: StoreModel, id: i64, row: ResearchRow) -> bool {
    &&& s0.research.dom().contains(id)
    &&& s1 == (StoreModel { research: s0.research.insert(id, row), ..s0 })
}

// ── Dates ────────────────────────────────────────────────────────────────

/// A date-only input: four year digits, two month digits and two day
/// digits, separated by dashes.
pub open spec fn spec_date_shape(s: Seq<char>) -> bool {
    &&& s.len() == 10
    &&& spec_is_digit(s[0]) && spec_is_digit(s[1]) && spec_is_digit(s[2]) && spec_is_digit(s[3])
    &&& s[4] == '-'
    &&& spec_is_digit(s[5]) && spec_is_digit(s[6])
    &&& s[7] == '-'
    &&& spec_is_digit(s[8]) && spec_is_digit(s[9])
}

/// What a date input normalizes to: a well-formed date-only input becomes
/// midnight UTC, a full second-precision UTC timestamp passes through,
/// and anything else — a wrong length, a misplaced separator, or a
/// non-digit where a digit belongs — is rejected.
pub open spec fn spec_parse_date(s: Seq<char>) -> Option<Seq<char>> {
    if spec_date_shape(s) {
        Some(s + "T00:00:00Z"@)
    } else if db::spec_timestamp_shape(s) {
        Some(s)
    } else {
        None
    }
}

/// Whether every character in the index range is a decimal digit.
fn all_digits_in(s: &str, from: usize, to: usize) -> (r: bool)
    requires
        from <= to <= s@.len(),
    ensures
        r == (forall|i: int| from <= i < to ==> spec_is_digit(#[trigger] s@[i])),
{
    let mut i = from;
    while i < to
        invariant
            from <= i <= to,
            to <= s@.len(),
            forall|j: int| from <= j < i ==> spec_is_digit(#[trigger] s@[j]),
        decreases to - i,
    {
        let u = s.get_char(i) as u32;
        if u < 48 || u > 57 {
            return false;
        }
        i = i + 1;
    }
    true
}

/// Normalizes a `researched_at` input: a well-formed date-only value is
/// read as midnight UTC, a full second-precision UTC timestamp is kept as
/// is, and anything else — ill-formed digits included — is rejected as an
/// invalid date format.
pub fn parse_date(s: &str) -> (r: Result<String, MemError>)
    ensures
        match r {
            Ok(t) => spec_parse_date(s@) == Some(t@),
            Err(e) => match e {
                MemError::Validation(v) => match v {
                    ValidationReason::InvalidDateFormat(d) => d@ == s@ && spec_parse_date(s@)
                        is None,
                    _ => false,
                },
                _ => false,
            },
        },
{
    let n = s.unicode_len();
    if n == 10 {
        if s.get_char(4) == '-' && s.get_char(7) == '-' && all_digits_in(s, 0, 4)
            && all_digits_in(s, 5, 7) && all_digits_in(s, 8, 10) {
            let mut out = s.to_owned();
            out.append("T00:00:00Z");
            return Ok(out);
        }
    } else if n == 20 {
        if s.get_char(4) == '-' && s.get_char(7) == '-' && s.get_char(10) == 'T' && s.get_char(13)
            == ':' && s.get_char(16) == ':' && s.get_char(19) == 'Z' && all_digits_in(s, 0, 4)
            && all_digits_in(s, 5, 7) && all_digits_in(s, 8, 10) && all_digits_in(s, 11, 13)
            && all_digits_in(s, 14, 16) && all_digits_in(s, 17, 19) {
            return Ok(s.to_owned());
        }
    }
    Err(MemError::Validation(ValidationReason::InvalidDateFormat(s.to_owned())))
}

// ── Loading ──────────────────────────────────────────────────────────────

/// Loads one research record by id.
pub fn load(conn: &rusqlite::Connection, id: i64) -> (r: Result<Option<Research>, MemError>)
    ensures
        match r {
            Ok(Some(x)) => x.id == id && research_in(x, db::store_of(*conn)),
            Ok(None) => !db::store_of(*conn).research.dom().contains(id),
            Err(e) => e is Storage,
        },
{
    match db::load_research(conn, id) {
        Ok(x) => Ok(x),
        Err(e) => Err(db::storage_error(&e)),
    }
}

/// Loads one research record, turning absence into the not-found error.
fn load_required(conn: &rusqlite::Connection, id: i64) -> (r: Result<Research, MemError>)
    ensures
        match r {
            Ok(x) => x.id == id && research_in(x, db::store_of(*conn)),
            Err(e) => match e {
                MemError::NotFound(k, t) => k == EntityKind::Research && t@ == spec_i64_string(
                    id as int,
                ) && !db::store_of(*conn).research.dom().contains(id),
                MemError::Storage(_) => true,
                _ => false,
            },
        },
{
    match db::load_research(conn, id) {
        Ok(Some(x)) => Ok(x),
        Ok(None) => Err(MemError::NotFound(EntityKind::Research, id_string(id))),
        Err(e) => Err(db::storage_error(&e)),
    }
}

// ── Creation and mutation ────────────────────────────────────────────────

/// Creates a research record. The name is trimmed and must not end up
/// empty; the new row starts with empty content and source, all three
/// timestamps at the same instant, and is returned as stored.
pub fn add(conn: &mut rusqlite::Connection, name: &str, description: &str) -> (r: Result<
    Research,
    MemError,
>)
    ensures
        ({
            let s0 = db::store_of(*old(conn));
            let s1 = db::store_of(*final(conn));
            match r {
                Ok(x) => {
                    &&& spec_trim(name@).len() > 0
                    &&& x.id > 0
                    &&& !s0.research.dom().contains(x.id)
                    &&& research_ids_named(s0, spec_trim(name@)).is_empty()
                    &&& research_in(x, s1)
                    &&& s1 == (StoreModel { research: s0.research.insert(x.id, x@), ..s0 })
                    &&& x@ == (ResearchRow {
                        name: spec_trim(name@),
                        description: description@,
                        content: Seq::<char>::empty(),
                        source: Seq::<char>::empty(),
                        researched_at: x@.researched_at,
                        created_at: x@.researched_at,
                        updated_at: x@.researched_at,
                    })
                    &&& db::spec_timestamp_shape(x@.researched_at)
                },
                Err(e) => s1 == s0 && match e {
                    MemError::Validation(v) => v == ValidationReason::EmptyName && spec_trim(
                        name@,
                    ).len() == 0,
                    MemError::Storage(_) => true,
                    _ => false,
                },
            }
        }),
        spec_trim(name@).len() == 0 ==> r == Err::<Research, MemError>(MemError::Validation(
            ValidationReason::EmptyName,
        )),
{
    let trimmed = trim_str(name);
    if trimmed.as_str().is_empty() {
        return Err(MemError::Validation(ValidationReason::EmptyName));
    }
    let ts = db::now_timestamp();
    match db::insert_research(conn, trimmed.as_str(), description, ts.as_str()) {
        Ok(id) => Ok(
            Research {
                id,
                name: trimmed,
                description: description.to_owned(),
                content: String::new(),
                source: String::new(),
                researched_at: ts.clone(),
                created_at: ts.clone(),
                updated_at: ts,
            },
        ),
        Err(e) => Err(db::storage_error(&e)),
    }
}

/// Renames a research record. The new name is trimmed and must not end up
/// empty; everything but the name and the refreshed `updated_at` is kept,
/// and the post-mutation snapshot is returned.
pub fn rename(conn: &mut rusqlite::Connection, id: i64, new_name: &str) -> (r: Result<
    Research,
    MemError,
>)
    ensures
        ({
            let s0 = db::store_of(*old(conn));
            let s1 = db::store_of(*final(conn));
            match r {
                Ok(x) => {
                    &&& spec_trim(new_name@).len() > 0
                    &&& x.id == id
                    &&& research_in(x, s1)
                    &&& research_row_set(s0, s1, id, x@)
                    &&& x@ == (ResearchRow {
                        name: spec_trim(new_name@),
                        updated_at: x@.updated_at,
                        ..s0.research[id]
                    })
                    &&& db::spec_timestamp_shape(x@.updated_at)
                },
                Err(e) => s1 == s0 && match e {
                    MemError::Validation(v) => v == ValidationReason::EmptyName && spec_trim(
                        new_name@,
                    ).len() == 0,
                    MemError::NotFound(k, t) => k == EntityKind::Research && t@ == spec_i64_string(
                        id as int,
                    ) && !s0.research.dom().contains(id),
                    MemError::Storage(_) => true,
                    _ => false,
                },
            }
        }),
        spec_trim(new_name@).len() == 0 ==> r == Err::<Research, MemError>(MemError::Validation(
            ValidationReason::EmptyName,
        )),
{
    let trimmed = trim_str(new_name);
    if trimmed.as_str().is_empty() {
        return Err(MemError::Validation(ValidationReason::EmptyName));
    }
    let x0 = load_required(conn, id)?;
    let ts = db::now_timestamp();
    match db::update_research_row(
        conn,
        id,
        trimmed.as_str(),
        x0.description.as_str(),
        x0.content.as_str(),
        x0.source.as_str(),
        x0.researched_at.as_str(),
        ts.as_str(),
    ) {
        Ok(_) => Ok(
            Research {
                id,
                name: trimmed,
                description: x0.description,
                content: x0.content,
                source: x0.source,
                researched_at: x0.researched_at,
                created_at: x0.created_at,
                updated_at: ts,
            },
        ),
        Err(e) => Err(db::storage_error(&e)),
    }
}

/// Replaces a research record's description, keeping everything else but
/// the refreshed `updated_at`, and returns the post-mutation snapshot.
pub fn set_description(conn: &mut rusqlite::Connection, id: i64, description: &str) -> (r: Result<
    Research,
    MemError,
>)
    ensures
        ({
            let s0 = db::store_of(*old(conn));
            let s1 = db::store_of(*final(conn));
            match r {
                Ok(x) => {
                    &&& x.id == id
                    &&& research_in(x, s1)
                    &&& research_row_set(s0, s1, id, x@)
                    &&& x@ == (ResearchRow {
                        description: description@,
                        updated_at: x@.updated_at,
                        ..s0.research[id]
                    })
                    &&& db::spec_timestamp_shape(x@.updated_at)
                },
                Err(e) => s1 == s0 && match e {
                    MemError::NotFound(k, t) => k == EntityKind::Research && t@ == spec_i64_string(
                        id as int,
                    ) && !s0.research.dom().contains(id),
                    MemError::Storage(_) => true,
                    _ => false,
                },
            }
        }),
{
    let x0 = load_required(conn, id)?;
    let ts = db::now_timestamp();
    match db::update_research_row(
        conn,
        id,
        x0.name.as_str(),
        description,
        x0.content.as_str(),
        x0.source.as_str(),
        x0.researched_at.as_str(),
        ts.as_str(),
    ) {
        Ok(_) => Ok(
            Research {
                id,
                name: x0.name,
                description: description.to_owned(),
                content: x0.content,
                source: x0.source,
                researched_at: x0.researched_at,
                created_at: x0.created_at,
                updated_at: ts,
            },
        ),
        Err(e) => Err(db::storage_error(&e)),
    }
}

/// Replaces a research record's content. `researched_at` moves to the
/// same fresh instant as `updated_at` unless the caller asked to keep the
/// date; the post-mutation snapshot is returned.
pub fn set_content(conn: &mut rusqlite::Connection, id: i64, content: &str, update_date: bool) -> (r:
    Result<Research, MemError>)
    ensures
        ({
            let s0 = db::store_of(*old(conn));
            let s1 = db::store_of(*final(conn));
            match r {
                Ok(x) => {
                    &&& x.id == id
                    &&& research_in(x, s1)
                    &&& research_row_set(s0, s1, id, x@)
                    &&& x@ == (ResearchRow {
                        content: content@,
                        researched_at: if update_date {
                            x@.updated_at
                        } else {
                            s0.research[id].researched_at
                        },
                        updated_at: x@.updated_at,
                        ..s0.research[id]
                    })
                    &&& db::spec_timestamp_shape(x@.updated_at)
                },
                Err(e) => s1 == s0 && match e {
                    MemError::NotFound(k, t) => k == EntityKind::Research && t@ == spec_i64_string(
                        id as int,
                    ) && !s0.research.dom().contains(id),
                    MemError::Storage(_) => true,
                    _ => false,
                },
            }
        }),
{
    let x0 = load_required(conn, id)?;
    let ts = db::now_timestamp();
    let dated = if update_date {
        ts.clone()
    } else {
        x0.researched_at.clone()
    };
    match db::update_research_row(
        conn,
        id,
        x0.name.as_str(),
        x0.description.as_str(),
        content,
        x0.source.as_str(),
        dated.as_str(),
        ts.as_str(),
    ) {
        Ok(_) => Ok(
            Research {
                id,
                name: x0.name,
                description: x0.description,
                content: content.to_owned(),
                source: x0.source,
                researched_at: dated,
                created_at: x0.created_at,
                updated_at: ts,
            },
        ),
        Err(e) => Err(db::storage_error(&e)),
    }
}

/// Replaces a research record's source citation, keeping everything else
/// but the refreshed `updated_at`, and returns the post-mutation snapshot.
pub fn set_source(conn: &mut rusqlite::Connection, id: i64, source: &str) -> (r: Result<
    Research,
    MemError,
>)
    ensures
        ({
            let s0 = db::store_of(*old(conn));
            let s1 = db::store_of(*final(conn));
            match r {
                Ok(x) => {
                    &&& x.id == id
                    &&& research_in(x, s1)
                    &&& research_row_set(s0, s1, id, x@)
                    &&& x@ == (ResearchRow {
                        source: source@,
                        updated_at: x@.updated_at,
                        ..s0.research[id]
                    })
                    &&& db::spec_timestamp_shape(x@.updated_at)
                },
                Err(e) => s1 == s0 && match e {
                    MemError::NotFound(k, t) => k == EntityKind::Research && t@ == spec_i64_string(
                        id as int,
                    ) && !s0.research.dom().contains(id),
                    MemError::Storage(_) => true,
                    _ => false,
                },
            }
        }),
{
    let x0 = load_required(conn, id)?;
    let ts = db::now_timestamp();
    match db::update_research_row(
        conn,
        id,
        x0.name.as_str(),
        x0.description.as_str(),
        x0.content.as_str(),
        source,
        x0.researched_at.as_str(),
        ts.as_str(),
    ) {
        Ok(_) => Ok(
            Research {
                id,
                name: x0.name,
                description: x0.description,
                content: x0.content,
                source: source.to_owned(),
                researched_at: x0.researched_at,
                created_at: x0.created_at,
                updated_at: ts,
            },
        ),
        Err(e) => Err(db::storage_error(&e)),
    }
}

/// Overrides `researched_at` with a normalized date input, refreshing
/// `updated_at`, and returns the post-mutation snapshot. An input that is
/// neither a date nor a full timestamp is rejected before any write.
pub fn set_researched_at(conn: &mut rusqlite::Connection, id: i64, date_str: &str) -> (r: Result<
    Research,
    MemError,
>)
    ensures
        ({
            let s0 = db::store_of(*old(conn));
            let s1 = db::store_of(*final(conn));
            match r {
                Ok(x) => {
                    &&& x.id == id
                    &&& research_in(x, s1)
                    &&& research_row_set(s0, s1, id, x@)
                    &&& spec_parse_date(date_str@) == Some(x@.researched_at)
                    &&& x@ == (ResearchRow {
                        researched_at: x@.researched_at,
                        updated_at: x@.updated_at,
                        ..s0.research[id]
                    })
                    &&& db::spec_timestamp_shape(x@.updated_at)
                },
                Err(e) => s1 == s0 && match e {
                    MemError::NotFound(k, t) => k == EntityKind::Research && t@ == spec_i64_string(
                        id as int,
                    ) && !s0.research.dom().contains(id),
                    MemError::Validation(v) => match v {
                        ValidationReason::InvalidDateFormat(d) => d@ == date_str@
                            && spec_parse_date(date_str@) is None,
                        _ => false,
                    },
                    MemError::Storage(_) => true,
                    _ => false,
                },
            }
        }),
{
    let x0 = load_required(conn, id)?;
    let dated = parse_date(date_str)?;
    let ts = db::now_timestamp();
    match db::update_research_row(
        conn,
        id,
        x0.name.as_str(),
        x0.description.as_str(),
        x0.content.as_str(),
        x0.source.as_str(),
        dated.as_str(),
        ts.as_str(),
    ) {
        Ok(_) => Ok(
            Research {
                id,
                name: x0.name,
                description: x0.description,
                content: x0.content,
                source: x0.source,
                researched_at: dated,
                created_at: x0.created_at,
                updated_at: ts,
            },
        ),
        Err(e) => Err(db::storage_error(&e)),
    }
}

/// Deletes a research record: the record and its association rows go, and
/// no hierarchy row is touched. The snapshot of the deleted row is
/// returned.
pub fn remove(conn: &mut rusqlite::Connection, id: i64) -> (r: Result<Research, MemError>)
    ensures
        ({
            let s0 = db::store_of(*old(conn));
            let s1 = db::store_of(*final(conn));
            match r {
                Ok(x) => {
                    &&& x.id == id
                    &&& research_in(x, s0)
                    &&& s1 == remove_research(s0, id)
                },
                Err(e) => s1 == s0 && match e {
                    MemError::NotFound(k, t) => k == EntityKind::Research && t@ == spec_i64_string(
                        id as int,
                    ) && !s0.research.dom().contains(id),
                    MemError::Storage(_) => true,
                    _ => false,
                },
            }
        }),
{
    let x0 = load_required(conn, id)?;
    match db::delete_research_row(conn, id) {
        Ok(_) => Ok(x0),
        Err(e) => Err(db::storage_error(&e)),
    }
}

// ── Listing and search ───────────────────────────────────────────────────

/// Lists research records in ascending id order: all of them, or — when a
/// staleness bound is given — only those whose `researched_at` the store
/// finds older than that many days before now. The clock decides the
/// stale set, so completeness is promised only for the unbounded listing.
pub fn list(conn: &rusqlite::Connection, stale_days: Option<i64>) -> (r: Result<
    Vec<Research>,
    MemError,
>)
    ensures
        ({
            let s = db::store_of(*conn);
            match r {
                Ok(v) => {
                    &&& db::research_ids_ascending(v@)
                    &&& forall|i: int| 0 <= i < v@.len() ==> research_in(#[trigger] v@[i], s)
                    &&& (stale_days is None ==> forall|rid: i64|
                        #[trigger] research_ids(s).contains(rid) ==> exists|i: int|
                            0 <= i < v@.len() && v@[i].id == rid)
                },
                Err(e) => e is Storage,
            }
        }),
{
    match stale_days {
        None => match db::all_research(conn) {
            Ok(v) => Ok(v),
            Err(e) => Err(db::storage_error(&e)),
        },
        Some(days) => match db::research_older_than(conn, days) {
            Ok(v) => Ok(v),
            Err(e) => Err(db::storage_error(&e)),
        },
    }
}

/// Whether a research row matches a lowercase search needle in any of its
/// name, description, content or source.
#[verifier::opaque]
pub open spec fn research_matches(row: ResearchRow, needle: Seq<char>) -> bool {
    ||| spec_contains(lower_of(row.name), needle)
    ||| spec_contains(lower_of(row.description), needle)
    ||| spec_contains(lower_of(row.content), needle)
    ||| spec_contains(lower_of(row.source), needle)
}

/// Decides whether one record matches a lowercase search needle.
fn matches_needle(x: &Research, needle: &str) -> (r: bool)
    ensures
        r == research_matches(x@, needle@),
{
    proof {
        reveal(research_matches);
    }
    let name_l = lowercase(x.name.as_str());
    if contains_sub(name_l.as_str(), needle) {
        return true;
    }
    let desc_l = lowercase(x.description.as_str());
    if contains_sub(desc_l.as_str(), needle) {
        return true;
    }
    let content_l = lowercase(x.content.as_str());
    if contains_sub(content_l.as_str(), needle) {
        return true;
    }
    let source_l = lowercase(x.source.as_str());
    contains_sub(source_l.as_str(), needle)
}

/// What a finished search hands back: rows of the store in ascending id
/// order, each matching the lowercase needle, and — when the candidates
/// were not narrowed to the clock-decided stale set — every matching row
/// of the store among them.
pub open spec fn search_post(
    s: StoreModel,
    term: Seq<char>,
    stale_days: Option<i64>,
    v: Seq<Research>,
) -> bool {
    &&& db::research_ids_ascending(v)
    &&& forall|i: int|
        0 <= i < v.len() ==> research_in(#[trigger] v[i], s) && research_matches(
            v[i]@,
            lower_of(term),
        )
    &&& (stale_days is None ==> forall|rid: i64|
        #[trigger] research_ids(s).contains(rid) && research_matches(
            s.research[rid],
            lower_of(term),
        ) ==> exists|i: int| 0 <= i < v.len() && v[i].id == rid)
}

/// Searches research records: a record matches when the lowercase form of
/// its name, description, content or source contains the lowercase form
/// of the term. With a staleness bound the candidates come from the
/// clock-decided stale set, so completeness is promised only without one.
#[verifier::rlimit(100)]
pub fn search(conn: &rusqlite::Connection, term: &str, stale_days: Option<i64>) -> (r: Result<
    Vec<Research>,
    MemError,
>)
    ensures
        match r {
            Ok(v) => search_post(db::store_of(*conn), term@, stale_days, v@),
            Err(e) => e is Storage,
        },
{
    let rows = match (match stale_days {
        None => db::all_research(conn),
        Some(days) => db::research_older_than(conn, days),
    }) {
        Ok(v) => v,
        Err(e) => {
            return Err(db::storage_error(&e));
        },
    };
    let needle = lowercase(term);
    let mut out: Vec<Research> = Vec::new();
    let mut i: usize = 0;
    while i < rows.len()
        invariant
            0 <= i <= rows@.len(),
            needle@ == lower_of(term@),
            db::research_ids_ascending(rows@),
            db::research_ids_ascending(out@),
            forall|a: int|
                0 <= a < out@.len() ==> exists|j: int|
                    0 <= j < i && rows@[j] == #[trigger] out@[a],
            forall|a: int|
                0 <= a < out@.len() ==> research_matches(#[trigger] out@[a]@, lower_of(term@)),
            forall|j: int| #![trigger rows@[j]]
                0 <= j < i && research_matches(rows@[j]@, lower_of(term@)) ==> exists|a: int|
                    0 <= a < out@.len() && out@[a].id == rows@[j].id,
        decreases rows@.len() - i,
    {
        let ghost out0 = out@;
        let keep = matches_needle(&rows[i], needle.as_str());
        if keep {
            let picked = rows[i].clone();
            proof {
                assert(picked == rows@[i as int]);
                assert forall|a: int| 0 <= a < out@.len() implies out@[a].id < picked.id by {
                    let j = choose|j: int| 0 <= j < i && rows@[j] == out@[a];
                    assert(rows@[j].id < rows@[i as int].id);
                }
            }
            out.push(picked);
            assert(out@[out@.len() - 1] == rows@[i as int]);
        }
        proof {
            assert forall|j: int| #![trigger rows@[j]]
                0 <= j < i + 1 && research_matches(rows@[j]@, lower_of(term@)) implies exists|
                a: int,
            |
                0 <= a < out@.len() && out@[a].id == rows@[j].id by {
                if j < i {
                    let a = choose|a: int| 0 <= a < out0.len() && out0[a].id == rows@[j].id;
                    assert(out@[a] == out0[a]);
                } else {
                    assert(keep);
                    assert(out@[out@.len() - 1].id == rows@[j].id);
                }
            }
        }
        i = i + 1;
    }
    proof {
        let s = db::store_of(*conn);
        assert forall|a: int| 0 <= a < out@.len() implies research_in(#[trigger] out@[a], s)
            && research_matches(out@[a]@, lower_of(term@)) by {
            let j = choose|j: int| 0 <= j < rows@.len() && rows@[j] == out@[a];
            assert(research_in(rows@[j], s));
        }
        if stale_days is None {
            assert forall|rid: i64|
                #[trigger] research_ids(s).contains(rid) && research_matches(
                    s.research[rid],
                    lower_of(term@),
                ) implies exists|a: int| 0 <= a < out@.len() && out@[a].id == rid by {
                let j = choose|j: int| 0 <= j < rows@.len() && rows@[j].id == rid;
                assert(research_in(rows@[j], s));
            }
        }
        assert(search_post(s, term@, stale_days, out@));
    }
    Ok(out)
}


/// Validates the caller's choice of link target before any resolution is
/// attempted: a link or unlink request must select exactly one of the
/// four hierarchy kinds.
pub fn single_link_target(
    has_project: bool,
    has_module: bool,
    has_feature: bool,
    has_task: bool,
) -> (r: Result<(), MemError>)
    ensures
        ({
            let count = (if has_project { 1int } else { 0 }) + (if has_module { 1int } else { 0 })
                + (if has_feature { 1int } else { 0 }) + (if has_task { 1int } else { 0 });
            match r {
                Ok(_) => count == 1,
                Err(e) => match e {
                    MemError::Validation(v) => match v {
                        ValidationReason::WrongLinkTargetCount(n) => n == count && count != 1,
                        _ => false,
                    },
                    _ => false,
                },
            }
        }),
{
    let mut count: usize = 0;
    if has_project {
        count = count + 1;
    }
    if has_module {
        count = count + 1;
    }
    if has_feature {
        count = count + 1;
    }
    if has_task {
        count = count + 1;
    }
    if count == 1 {
        Ok(())
    } else {
        Err(MemError::Validation(ValidationReason::WrongLinkTargetCount(count)))
    }
}

// ── Associations ─────────────────────────────────────────────────────────

/// Associates a research record with a project. Linking a pair that is
/// already linked is a no-op that still succeeds: the association set
/// afterwards holds the pair exactly once either way.
pub fn link_project(conn: &mut rusqlite::Connection, research_id: i64, project_id: i64) -> (r:
    Result<(), MemError>)
    ensures
        ({
            let s0 = db::store_of(*old(conn));
            let s1 = db::store_of(*final(conn));
            match r {
                Ok(_) => s0.research.dom().contains(research_id) && s0.projects.dom().contains(
                    project_id,
                ) && s1 == link_project_model(s0, research_id, project_id),
                Err(e) => s1 == s0 && match e {
                    MemError::NotFound(k, t) => k == EntityKind::Research && t@ == spec_i64_string(
                        research_id as int,
                    ) && !s0.research.dom().contains(research_id),
                    MemError::Storage(_) => true,
                    _ => false,
                },
            }
        }),
{
    let _linked = load_required(conn, research_id)?;
    match db::insert_research_project(conn, research_id, project_id) {
        Ok(_) => Ok(()),
        Err(e) => Err(db::storage_error(&e)),
    }
}

/// Associates a research record with a module, as for projects.
pub fn link_module(conn: &mut rusqlite::Connection, research_id: i64, module_id: i64) -> (r:
    Result<(), MemError>)
    ensures
        ({
            let s0 = db::store_of(*old(conn));
            let s1 = db::store_of(*final(conn));
            match r {
                Ok(_) => s0.research.dom().contains(research_id) && s0.modules.dom().contains(
                    module_id,
                ) && s1 == link_module_model(s0, research_id, module_id),
                Err(e) => s1 == s0 && match e {
                    MemError::NotFound(k, t) => k == EntityKind::Research && t@ == spec_i64_string(
                        research_id as int,
                    ) && !s0.research.dom().contains(research_id),
                    MemError::Storage(_) => true,
                    _ => false,
                },
            }
        }),
{
    let _linked = load_required(conn, research_id)?;
    match db::insert_research_module(conn, research_id, module_id) {
        Ok(_) => Ok(()),
        Err(e) => Err(db::storage_error(&e)),
    }
}

/// Associates a research record with a feature, as for projects.
pub fn link_feature(conn: &mut rusqlite::Connection, research_id: i64, feature_id: i64) -> (r:
    Result<(), MemError>)
    ensures
        ({
            let s0 = db::store_of(*old(conn));
            let s1 = db::store_of(*final(conn));
            match r {
                Ok(_) => s0.research.dom().contains(research_id) && s0.features.dom().contains(
                    feature_id,
                ) && s1 == link_feature_model(s0, research_id, feature_id),
                Err(e) => s1 == s0 && match e {
                    MemError::NotFound(k, t) => k == EntityKind::Research && t@ == spec_i64_string(
                        research_id as int,
                    ) && !s0.research.dom().contains(research_id),
                    MemError::Storage(_) => true,
                    _ => false,
                },
            }
        }),
{
    let _linked = load_required(conn, research_id)?;
    match db::insert_research_feature(conn, research_id, feature_id) {
        Ok(_) => Ok(()),
        Err(e) => Err(db::storage_error(&e)),
    }
}

/// Associates a research record with a task, as for projects.
pub fn link_task(conn: &mut rusqlite::Connection, research_id: i64, task_id: i64) -> (r: Result<
    (),
    MemError,
>)
    ensures
        ({
            let s0 = db::store_of(*old(conn));
            let s1 = db::store_of(*final(conn));
            match r {
                Ok(_) => s0.research.dom().contains(research_id) && s0.tasks.dom().contains(
                    task_id,
                ) && s1 == link_task_model(s0, research_id, task_id),
                Err(e) => s1 == s0 && match e {
                    MemError::NotFound(k, t) => k == EntityKind::Research && t@ == spec_i64_string(
                        research_id as int,
                    ) && !s0.research.dom().contains(research_id),
                    MemError::Storage(_) => true,
                    _ => false,
                },
            }
        }),
{
    let _linked = load_required(conn, research_id)?;
    match db::insert_research_task(conn, research_id, task_id) {
        Ok(_) => Ok(()),
        Err(e) => Err(db::storage_error(&e)),
    }
}

/// Dissolves the association of a research record with a project.
/// Unlinking a pair that is not linked is a no-op that still succeeds:
/// the association set afterwards lacks the pair either way, and no other
/// row changes.
pub fn unlink_project(conn: &mut rusqlite::Connection, research_id: i64, project_id: i64) -> (r:
    Result<(), MemError>)
    ensures
        ({
            let s0 = db::store_of(*old(conn));
            let s1 = db::store_of(*final(conn));
            match r {
                Ok(_) => s0.research.dom().contains(research_id) && s1 == unlink_project_model(
                    s0,
                    research_id,
                    project_id,
                ),
                Err(e) => s1 == s0 && match e {
                    MemError::NotFound(k, t) => k == EntityKind::Research && t@ == spec_i64_string(
                        research_id as int,
                    ) && !s0.research.dom().contains(research_id),
                    MemError::Storage(_) => true,
                    _ => false,
                },
            }
        }),
{
    let _linked = load_required(conn, research_id)?;
    match db::delete_research_project(conn, research_id, project_id) {
        Ok(_) => Ok(()),
        Err(e) => Err(db::storage_error(&e)),
    }
}

/// Dissolves the association of a research record with a module, as for
/// projects.
pub fn unlink_module(conn: &mut rusqlite::Connection, research_id: i64, module_id: i64) -> (r:
    Result<(), MemError>)
    ensures
        ({
            let s0 = db::store_of(*old(conn));
            let s1 = db::store_of(*final(conn));
            match r {
                Ok(_) => s0.research.dom().contains(research_id) && s1 == unlink_module_model(
                    s0,
                    research_id,
                    module_id,
                ),
                Err(e) => s1 == s0 && match e {
                    MemError::NotFound(k, t) => k == EntityKind::Research && t@ == spec_i64_string(
                        research_id as int,
                    ) && !s0.research.dom().contains(research_id),
                    MemError::Storage(_) => true,
                    _ => false,
                },
            }
        }),
{
    let _linked = load_required(conn, research_id)?;
    match db::delete_research_module(conn, research_id, module_id) {
        Ok(_) => Ok(()),
        Err(e) => Err(db::storage_error(&e)),
    }
}

/// Dissolves the association of a research record with a feature, as for
/// projects.
pub fn unlink_feature(conn: &mut rusqlite::Connection, research_id: i64, feature_id: i64) -> (r:
    Result<(), MemError>)
    ensures
        ({
            let s0 = db::store_of(*old(conn));
            let s1 = db::store_of(*final(conn));
            match r {
                Ok(_) => s0.research.dom().contains(research_id) && s1 == unlink_feature_model(
                    s0,
                    research_id,
                    feature_id,
                ),
                Err(e) => s1 == s0 && match e {
                    MemError::NotFound(k, t) => k == EntityKind::Research && t@ == spec_i64_string(
                        research_id as int,
                    ) && !s0.research.dom().contains(research_id),
                    MemError::Storage(_) => true,
                    _ => false,
                },
            }
        }),
{
    let _linked = load_required(conn, research_id)?;
    match db::delete_research_feature(conn, research_id, feature_id) {
        Ok(_) => Ok(()),
        Err(e) => Err(db::storage_error(&e)),
    }
}

/// Dissolves the association of a research record with a task, as for
/// projects.
pub fn unlink_task(conn: &mut rusqlite::Connection, research_id: i64, task_id: i64) -> (r: Result<
    (),
    MemError,
>)
    ensures
        ({
            let s0 = db::store_of(*old(conn));
            let s1 = db::store_of(*final(conn));
            match r {
                Ok(_) => s0.research.dom().contains(research_id) && s1 == unlink_task_model(
                    s0,
                    research_id,
                    task_id,
                ),
                Err(e) => s1 == s0 && match e {
                    MemError::NotFound(k, t) => k == EntityKind::Research && t@ == spec_i64_string(
                        research_id as int,
                    ) && !s0.research.dom().contains(research_id),
                    MemError::Storage(_) => true,
                    _ => false,
                },
            }
        }),
{
    let _linked = load_required(conn, research_id)?;
    match db::delete_research_task(conn, research_id, task_id) {
        Ok(_) => Ok(()),
        Err(e) => Err(db::storage_error(&e)),
    }
}

// ── The combined link view ───────────────────────────────────────────────

/// One entity associated with a research record, annotated with enough
/// ancestor names to disambiguate display.
#[derive(Debug, PartialEq, Eq)]
pub struct LinkEntry {
    pub kind: EntityKind,
    pub id: i64,
    pub name: String,
    pub context: String,
}

/// The display rank of an entity kind: projects first, then modules,
/// features and tasks.
pub open spec fn kind_rank(k: EntityKind) -> int {
    match k {
        EntityKind::Project => 0,
        EntityKind::Module => 1,
        EntityKind::Feature => 2,
        EntityKind::Task => 3,
        EntityKind::Research => 4,
    }
}

/// Display order: by kind rank, then by id within a kind.
pub open spec fn link_entry_le(a: LinkEntry, b: LinkEntry) -> bool {
    kind_rank(a.kind) < kind_rank(b.kind) || (a.kind == b.kind && a.id < b.id)
}

/// Every earlier entry precedes every later one in display order.
pub open spec fn link_entries_ordered(v: Seq<LinkEntry>) -> bool {
    forall|i: int, j: int|
        0 <= i < j < v.len() ==> link_entry_le(#[trigger] v[i], #[trigger] v[j])
}

/// A linked module is displayable when its project row is also present.
pub open spec fn module_chain_ok(s: StoreModel, mid: i64) -> bool {
    s.modules.dom().contains(mid) && s.projects.dom().contains(s.modules[mid].project_id)
}

/// The ancestor annotation of a linked module: its project's name.
pub open spec fn module_context(s: StoreModel, mid: i64) -> Seq<char> {
    s.projects[s.modules[mid].project_id].name
}

/// A linked feature is displayable when its module and project rows are
/// also present.
pub open spec fn feature_chain_ok(s: StoreModel, fid: i64) -> bool {
    s.features.dom().contains(fid) && module_chain_ok(s, s.features[fid].module_id)
}

/// The ancestor annotation of a linked feature: project, then module.
pub open spec fn feature_context(s: StoreModel, fid: i64) -> Seq<char> {
    module_context(s, s.features[fid].module_id) + " > "@ + s.modules[s.features[fid].module_id].name
}

/// A linked task is displayable when its whole ancestor chain is present.
pub open spec fn task_chain_ok(s: StoreModel, tid: i64) -> bool {
    s.tasks.dom().contains(tid) && feature_chain_ok(s, s.tasks[tid].feature_id)
}

/// The ancestor annotation of a linked task: project, module, feature.
pub open spec fn task_context(s: StoreModel, tid: i64) -> Seq<char> {
    feature_context(s, s.tasks[tid].feature_id) + " > "@ + s.features[s.tasks[tid].feature_id].name
}

/// A correct project entry: the association exists, the row exists, and
/// the entry carries its name with no ancestor annotation.
#[verifier::opaque]
pub open spec fn project_entry_ok(s: StoreModel, rid: i64, e: LinkEntry) -> bool {
    &&& e.kind == EntityKind::Project
    &&& s.research_projects.contains((rid, e.id))
    &&& s.projects.dom().contains(e.id)
    &&& e.name@ == s.projects[e.id].name
    &&& e.context@ == Seq::<char>::empty()
}

/// A correct module entry: the association and the displayable chain
/// exist, and the entry carries the module's name and its project's name.
#[verifier::opaque]
pub open spec fn module_entry_ok(s: StoreModel, rid: i64, e: LinkEntry) -> bool {
    &&& e.kind == EntityKind::Module
    &&& s.research_modules.contains((rid, e.id))
    &&& module_chain_ok(s, e.id)
    &&& e.name@ == s.modules[e.id].name
    &&& e.context@ == module_context(s, e.id)
}

/// A correct feature entry, annotated with project and module names.
#[verifier::opaque]
pub open spec fn feature_entry_ok(s: StoreModel, rid: i64, e: LinkEntry) -> bool {
    &&& e.kind == EntityKind::Feature
    &&& s.research_features.contains((rid, e.id))
    &&& feature_chain_ok(s, e.id)
    &&& e.name@ == s.features[e.id].name
    &&& e.context@ == feature_context(s, e.id)
}

/// A correct task entry, annotated with project, module and feature names.
#[verifier::opaque]
pub open spec fn task_entry_ok(s: StoreModel, rid: i64, e: LinkEntry) -> bool {
    &&& e.kind == EntityKind::Task
    &&& s.research_tasks.contains((rid, e.id))
    &&& task_chain_ok(s, e.id)
    &&& e.name@ == s.tasks[e.id].name
    &&& e.context@ == task_context(s, e.id)
}

/// A correct entry of any kind.
pub open spec fn link_entry_ok(s: StoreModel, rid: i64, e: LinkEntry) -> bool {
    match e.kind {
        EntityKind::Project => project_entry_ok(s, rid, e),
        EntityKind::Module => module_entry_ok(s, rid, e),
        EntityKind::Feature => feature_entry_ok(s, rid, e),
        EntityKind::Task => task_entry_ok(s, rid, e),
        EntityKind::Research => false,
    }
}

/// What the combined link view hands back: correct entries in display
/// order, one for every association whose target row — with its ancestor
/// chain, where one is annotated — is present in the store.
pub open spec fn links_post(s: StoreModel, rid: i64, v: Seq<LinkEntry>) -> bool {
    &&& link_entries_ordered(v)
    &&& forall|i: int| 0 <= i < v.len() ==> link_entry_ok(s, rid, #[trigger] v[i])
    &&& forall|pid: i64|
        #[trigger] s.research_projects.contains((rid, pid)) && s.projects.dom().contains(pid)
            ==> exists|i: int| 0 <= i < v.len() && v[i].kind == EntityKind::Project && v[i].id == pid
    &&& forall|mid: i64|
        #[trigger] s.research_modules.contains((rid, mid)) && module_chain_ok(s, mid)
            ==> exists|i: int| 0 <= i < v.len() && v[i].kind == EntityKind::Module && v[i].id == mid
    &&& forall|fid: i64|
        #[trigger] s.research_features.contains((rid, fid)) && feature_chain_ok(s, fid)
            ==> exists|i: int| 0 <= i < v.len() && v[i].kind == EntityKind::Feature && v[i].id == fid
    &&& forall|tid: i64|
        #[trigger] s.research_tasks.contains((rid, tid)) && task_chain_ok(s, tid) ==> exists|
            i: int,
        | 0 <= i < v.len() && v[i].kind == EntityKind::Task && v[i].id == tid
}

/// What one kind's collection hands back: correct entries of that kind in
/// ascending id order, one for every displayable association of the kind.
pub open spec fn project_entries_post(s: StoreModel, rid: i64, v: Seq<LinkEntry>) -> bool {
    &&& forall|i: int| 0 <= i < v.len() ==> (#[trigger] v[i]).kind == EntityKind::Project
    &&& forall|i: int| 0 <= i < v.len() ==> project_entry_ok(s, rid, #[trigger] v[i])
    &&& forall|i: int, j: int| 0 <= i < j < v.len() ==> (#[trigger] v[i]).id < (#[trigger] v[j]).id
    &&& forall|pid: i64|
        #[trigger] s.research_projects.contains((rid, pid)) && s.projects.dom().contains(pid)
            ==> exists|i: int| 0 <= i < v.len() && v[i].id == pid
}

/// As for projects, for module entries.
pub open spec fn module_entries_post(s: StoreModel, rid: i64, v: Seq<LinkEntry>) -> bool {
    &&& forall|i: int| 0 <= i < v.len() ==> (#[trigger] v[i]).kind == EntityKind::Module
    &&& forall|i: int| 0 <= i < v.len() ==> module_entry_ok(s, rid, #[trigger] v[i])
    &&& forall|i: int, j: int| 0 <= i < j < v.len() ==> (#[trigger] v[i]).id < (#[trigger] v[j]).id
    &&& forall|mid: i64|
        #[trigger] s.research_modules.contains((rid, mid)) && module_chain_ok(s, mid)
            ==> exists|i: int| 0 <= i < v.len() && v[i].id == mid
}

/// As for projects, for feature entries.
pub open spec fn feature_entries_post(s: StoreModel, rid: i64, v: Seq<LinkEntry>) -> bool {
    &&& forall|i: int| 0 <= i < v.len() ==> (#[trigger] v[i]).kind == EntityKind::Feature
    &&& forall|i: int| 0 <= i < v.len() ==> feature_entry_ok(s, rid, #[trigger] v[i])
    &&& forall|i: int, j: int| 0 <= i < j < v.len() ==> (#[trigger] v[i]).id < (#[trigger] v[j]).id
    &&& forall|fid: i64|
        #[trigger] s.research_features.contains((rid, fid)) && feature_chain_ok(s, fid)
            ==> exists|i: int| 0 <= i < v.len() && v[i].id == fid
}

/// As for projects, for task entries.
pub open spec fn task_entries_post(s: StoreModel, rid: i64, v: Seq<LinkEntry>) -> bool {
    &&& forall|i: int| 0 <= i < v.len() ==> (#[trigger] v[i]).kind == EntityKind::Task
    &&& forall|i: int| 0 <= i < v.len() ==> task_entry_ok(s, rid, #[trigger] v[i])
    &&& forall|i: int, j: int| 0 <= i < j < v.len() ==> (#[trigger] v[i]).id < (#[trigger] v[j]).id
    &&& forall|tid: i64|
        #[trigger] s.research_tasks.contains((rid, tid)) && task_chain_ok(s, tid) ==> exists|
            i: int,
        | 0 <= i < v.len() && v[i].id == tid
}

/// Collects the project entries of one research record.
fn project_entries(conn: &rusqlite::Connection, rid: i64) -> (r: Result<Vec<LinkEntry>, MemError>)
    ensures
        match r {
            Ok(v) => project_entries_post(db::store_of(*conn), rid, v@),
            Err(e) => e is Storage,
        },
{
    let ids = match db::linked_project_ids(conn, rid) {
        Ok(v) => v,
        Err(e) => {
            return Err(db::storage_error(&e));
        },
    };
    let mut out: Vec<LinkEntry> = Vec::new();
    let mut k: usize = 0;
    while k < ids.len()
        invariant
            0 <= k <= ids@.len(),
            db::ids_ascending(ids@),
            forall|j: int|
                0 <= j < ids@.len() ==> db::store_of(*conn).research_projects.contains(
                    (rid, #[trigger] ids@[j]),
                ),
            forall|a: int|
                0 <= a < out@.len() ==> (#[trigger] out@[a]).kind == EntityKind::Project,
            forall|a: int|
                0 <= a < out@.len() ==> project_entry_ok(
                    db::store_of(*conn),
                    rid,
                    #[trigger] out@[a],
                ),
            forall|a: int|
                0 <= a < out@.len() ==> exists|j: int|
                    0 <= j < k && ids@[j] == (#[trigger] out@[a]).id,
            forall|a: int, b: int|
                0 <= a < b < out@.len() ==> (#[trigger] out@[a]).id < (#[trigger] out@[b]).id,
            forall|j: int| #![trigger ids@[j]]
                0 <= j < k && db::store_of(*conn).projects.dom().contains(ids@[j]) ==> exists|
                    a: int,
                | 0 <= a < out@.len() && out@[a].id == ids@[j],
        decreases ids@.len() - k,
    {
        let ghost out0 = out@;
        let pid = ids[k];
        let loaded = match db::load_project(conn, pid) {
            Ok(x) => x,
            Err(e) => {
                return Err(db::storage_error(&e));
            },
        };
        match loaded {
            Some(p) => {
                let entry = LinkEntry {
                    kind: EntityKind::Project,
                    id: pid,
                    name: p.name,
                    context: String::new(),
                };
                proof {
                    reveal(project_entry_ok);
                    assert(project_entry_ok(db::store_of(*conn), rid, entry));
                    assert forall|a: int| 0 <= a < out@.len() implies (#[trigger] out@[a]).id
                        < pid by {
                        let j = choose|j: int| 0 <= j < k && ids@[j] == out@[a].id;
                        assert(ids@[j] < ids@[k as int]);
                    }
                }
                out.push(entry);
                assert(out@[out@.len() - 1].id == ids@[k as int]);
            },
            None => {},
        }
        proof {
            assert forall|j: int| #![trigger ids@[j]]
                0 <= j < k + 1 && db::store_of(*conn).projects.dom().contains(ids@[j]) implies
                exists|a: int| 0 <= a < out@.len() && out@[a].id == ids@[j] by {
                if j < k {
                    let a = choose|a: int| 0 <= a < out0.len() && out0[a].id == ids@[j];
                    assert(out@[a] == out0[a]);
                } else {
                    assert(out@[out@.len() - 1].id == ids@[j]);
                }
            }
        }
        k = k + 1;
    }
    proof {
        let s = db::store_of(*conn);
        assert forall|pid: i64|
            #[trigger] s.research_projects.contains((rid, pid)) && s.projects.dom().contains(
                pid,
            ) implies exists|i: int| 0 <= i < out@.len() && out@[i].id == pid by {
            assert(ids@.contains(pid));
            let j = choose|j: int| 0 <= j < ids@.len() && ids@[j] == pid;
        }
        assert(project_entries_post(s, rid, out@));
    }
    Ok(out)
}

/// Collects the module entries of one research record, each annotated
/// with its project's name; an association whose chain has a gap is left
/// out, as the store's foreign keys make that impossible.
#[verifier::rlimit(50)]
fn module_entries(conn: &rusqlite::Connection, rid: i64) -> (r: Result<Vec<LinkEntry>, MemError>)
    ensures
        match r {
            Ok(v) => module_entries_post(db::store_of(*conn), rid, v@),
            Err(e) => e is Storage,
        },
{
    let ids = match db::linked_module_ids(conn, rid) {
        Ok(v) => v,
        Err(e) => {
            return Err(db::storage_error(&e));
        },
    };
    let mut out: Vec<LinkEntry> = Vec::new();
    let mut k: usize = 0;
    while k < ids.len()
        invariant
            0 <= k <= ids@.len(),
            db::ids_ascending(ids@),
            forall|j: int|
                0 <= j < ids@.len() ==> db::store_of(*conn).research_modules.contains(
                    (rid, #[trigger] ids@[j]),
                ),
            forall|a: int|
                0 <= a < out@.len() ==> (#[trigger] out@[a]).kind == EntityKind::Module,
            forall|a: int|
                0 <= a < out@.len() ==> module_entry_ok(
                    db::store_of(*conn),
                    rid,
                    #[trigger] out@[a],
                ),
            forall|a: int|
                0 <= a < out@.len() ==> exists|j: int|
                    0 <= j < k && ids@[j] == (#[trigger] out@[a]).id,
            forall|a: int, b: int|
                0 <= a < b < out@.len() ==> (#[trigger] out@[a]).id < (#[trigger] out@[b]).id,
            forall|j: int| #![trigger ids@[j]]
                0 <= j < k && module_chain_ok(db::store_of(*conn), ids@[j]) ==> exists|a: int|
                    0 <= a < out@.len() && out@[a].id == ids@[j],
        decreases ids@.len() - k,
    {
        let ghost out0 = out@;
        let mid = ids[k];
        let loaded = match db::load_module(conn, mid) {
            Ok(x) => x,
            Err(e) => {
                return Err(db::storage_error(&e));
            },
        };
        match loaded {
            Some(m) => {
                let parent = match db::load_project(conn, m.project_id) {
                    Ok(x) => x,
                    Err(e) => {
                        return Err(db::storage_error(&e));
                    },
                };
                match parent {
                    Some(p) => {
                        let entry = LinkEntry {
                            kind: EntityKind::Module,
                            id: mid,
                            name: m.name,
                            context: p.name,
                        };
                        proof {
                            reveal(module_entry_ok);
                            assert(module_entry_ok(db::store_of(*conn), rid, entry));
                            assert forall|a: int| 0 <= a < out@.len() implies (
                            #[trigger] out@[a]).id < mid by {
                                let j = choose|j: int| 0 <= j < k && ids@[j] == out@[a].id;
                                assert(ids@[j] < ids@[k as int]);
                            }
                        }
                        out.push(entry);
                        assert(out@[out@.len() - 1].id == ids@[k as int]);
                    },
                    None => {},
                }
            },
            None => {},
        }
        proof {
            assert forall|j: int| #![trigger ids@[j]]
                0 <= j < k + 1 && module_chain_ok(db::store_of(*conn), ids@[j]) implies exists|
                a: int,
            | 0 <= a < out@.len() && out@[a].id == ids@[j] by {
                if j < k {
                    let a = choose|a: int| 0 <= a < out0.len() && out0[a].id == ids@[j];
                    assert(out@[a] == out0[a]);
                } else {
                    assert(out@[out@.len() - 1].id == ids@[j]);
                }
            }
        }
        k = k + 1;
    }
    proof {
        let s = db::store_of(*conn);
        assert forall|mid: i64|
            #[trigger] s.research_modules.contains((rid, mid)) && module_chain_ok(s, mid) implies
            exists|i: int| 0 <= i < out@.len() && out@[i].id == mid by {
            assert(ids@.contains(mid));
            let j = choose|j: int| 0 <= j < ids@.len() && ids@[j] == mid;
        }
        assert(module_entries_post(s, rid, out@));
    }
    Ok(out)
}

/// Collects the feature entries of one research record, each annotated
/// with project and module names, as for modules.
#[verifier::rlimit(50)]
fn feature_entries(conn: &rusqlite::Connection, rid: i64) -> (r: Result<Vec<LinkEntry>, MemError>)
    ensures
        match r {
            Ok(v) => feature_entries_post(db::store_of(*conn), rid, v@),
            Err(e) => e is Storage,
        },
{
    let ids = match db::linked_feature_ids(conn, rid) {
        Ok(v) => v,
        Err(e) => {
            return Err(db::storage_error(&e));
        },
    };
    let mut out: Vec<LinkEntry> = Vec::new();
    let mut k: usize = 0;
    while k < ids.len()
        invariant
            0 <= k <= ids@.len(),
            db::ids_ascending(ids@),
            forall|j: int|
                0 <= j < ids@.len() ==> db::store_of(*conn).research_features.contains(
                    (rid, #[trigger] ids@[j]),
                ),
            forall|a: int|
                0 <= a < out@.len() ==> (#[trigger] out@[a]).kind == EntityKind::Feature,
            forall|a: int|
                0 <= a < out@.len() ==> feature_entry_ok(
                    db::store_of(*conn),
                    rid,
                    #[trigger] out@[a],
                ),
            forall|a: int|
                0 <= a < out@.len() ==> exists|j: int|
                    0 <= j < k && ids@[j] == (#[trigger] out@[a]).id,
            forall|a: int, b: int|
                0 <= a < b < out@.len() ==> (#[trigger] out@[a]).id < (#[trigger] out@[b]).id,
            forall|j: int| #![trigger ids@[j]]
                0 <= j < k && feature_chain_ok(db::store_of(*conn), ids@[j]) ==> exists|a: int|
                    0 <= a < out@.len() && out@[a].id == ids@[j],
        decreases ids@.len() - k,
    {
        let ghost out0 = out@;
        let fid = ids[k];
        let loaded = match db::load_feature(conn, fid) {
            Ok(x) => x,
            Err(e) => {
                return Err(db::storage_error(&e));
            },
        };
        match loaded {
            Some(f) => {
                let mid_row = match db::load_module(conn, f.module_id) {
                    Ok(x) => x,
                    Err(e) => {
                        return Err(db::storage_error(&e));
                    },
                };
                match mid_row {
                    Some(m) => {
                        let parent = match db::load_project(conn, m.project_id) {
                            Ok(x) => x,
                            Err(e) => {
                                return Err(db::storage_error(&e));
                            },
                        };
                        match parent {
                            Some(p) => {
                                let mut ctx = p.name;
                                ctx.append(" > ");
                                ctx.append(m.name.as_str());
                                let entry = LinkEntry {
                                    kind: EntityKind::Feature,
                                    id: fid,
                                    name: f.name,
                                    context: ctx,
                                };
                                proof {
                                    reveal(feature_entry_ok);
                                    assert(entry.context@ == feature_context(
                                        db::store_of(*conn),
                                        fid,
                                    ));
                                    assert(feature_entry_ok(db::store_of(*conn), rid, entry));
                                    assert forall|a: int| 0 <= a < out@.len() implies (
                                    #[trigger] out@[a]).id < fid by {
                                        let j = choose|j: int|
                                            0 <= j < k && ids@[j] == out@[a].id;
                                        assert(ids@[j] < ids@[k as int]);
                                    }
                                }
                                out.push(entry);
                                assert(out@[out@.len() - 1].id == ids@[k as int]);
                            },
                            None => {},
                        }
                    },
                    None => {},
                }
            },
            None => {},
        }
        proof {
            assert forall|j: int| #![trigger ids@[j]]
                0 <= j < k + 1 && feature_chain_ok(db::store_of(*conn), ids@[j]) implies exists|
                a: int,
            | 0 <= a < out@.len() && out@[a].id == ids@[j] by {
                if j < k {
                    let a = choose|a: int| 0 <= a < out0.len() && out0[a].id == ids@[j];
                    assert(out@[a] == out0[a]);
                } else {
                    assert(out@[out@.len() - 1].id == ids@[j]);
                }
            }
        }
        k = k + 1;
    }
    proof {
        let s = db::store_of(*conn);
        assert forall|fid: i64|
            #[trigger] s.research_features.contains((rid, fid)) && feature_chain_ok(s, fid)
            implies exists|i: int| 0 <= i < out@.len() && out@[i].id == fid by {
            assert(ids@.contains(fid));
            let j = choose|j: int| 0 <= j < ids@.len() && ids@[j] == fid;
        }
        assert(feature_entries_post(s, rid, out@));
    }
    Ok(out)
}

/// Collects the task entries of one research record, each annotated with
/// project, module and feature names, as for modules.
#[verifier::rlimit(50)]
fn task_entries(conn: &rusqlite::Connection, rid: i64) -> (r: Result<Vec<LinkEntry>, MemError>)
    ensures
        match r {
            Ok(v) => task_entries_post(db::store_of(*conn), rid, v@),
            Err(e) => e is Storage,
        },
{
    let ids = match db::linked_task_ids(conn, rid) {
        Ok(v) => v,
        Err(e) => {
            return Err(db::storage_error(&e));
        },
    };
    let mut out: Vec<LinkEntry> = Vec::new();
    let mut k: usize = 0;
    while k < ids.len()
        invariant
            0 <= k <= ids@.len(),
            db::ids_ascending(ids@),
            forall|j: int|
                0 <= j < ids@.len() ==> db::store_of(*conn).research_tasks.contains(
                    (rid, #[trigger] ids@[j]),
                ),
            forall|a: int|
                0 <= a < out@.len() ==> (#[trigger] out@[a]).kind == EntityKind::Task,
            forall|a: int|
                0 <= a < out@.len() ==> task_entry_ok(db::store_of(*conn), rid, #[trigger] out@[a]),
            forall|a: int|
                0 <= a < out@.len() ==> exists|j: int|
                    0 <= j < k && ids@[j] == (#[trigger] out@[a]).id,
            forall|a: int, b: int|
                0 <= a < b < out@.len() ==> (#[trigger] out@[a]).id < (#[trigger] out@[b]).id,
            forall|j: int| #![trigger ids@[j]]
                0 <= j < k && task_chain_ok(db::store_of(*conn), ids@[j]) ==> exists|a: int|
                    0 <= a < out@.len() && out@[a].id == ids@[j],
        decreases ids@.len() - k,
    {
        let ghost out0 = out@;
        let tid = ids[k];
        let loaded = match db::load_task(conn, tid) {
            Ok(x) => x,
            Err(e) => {
                return Err(db::storage_error(&e));
            },
        };
        match loaded {
            Some(t) => {
                let fid_row = match db::load_feature(conn, t.feature_id) {
                    Ok(x) => x,
                    Err(e) => {
                        return Err(db::storage_error(&e));
                    },
                };
                match fid_row {
                    Some(f) => {
                        let mid_row = match db::load_module(conn, f.module_id) {
                            Ok(x) => x,
                            Err(e) => {
                                return Err(db::storage_error(&e));
                            },
                        };
                        match mid_row {
                            Some(m) => {
                                let parent = match db::load_project(conn, m.project_id) {
                                    Ok(x) => x,
                                    Err(e) => {
                                        return Err(db::storage_error(&e));
                                    },
                                };
                                match parent {
                                    Some(p) => {
                                        let mut ctx = p.name;
                                        ctx.append(" > ");
                                        ctx.append(m.name.as_str());
                                        ctx.append(" > ");
                                        ctx.append(f.name.as_str());
                                        let entry = LinkEntry {
                                            kind: EntityKind::Task,
                                            id: tid,
                                            name: t.name,
                                            context: ctx,
                                        };
                                        proof {
                                            reveal(task_entry_ok);
                                            assert(entry.context@ == task_context(
                                                db::store_of(*conn),
                                                tid,
                                            ));
                                            assert(task_entry_ok(db::store_of(*conn), rid, entry));
                                            assert forall|a: int| 0 <= a < out@.len() implies (
                                            #[trigger] out@[a]).id < tid by {
                                                let j = choose|j: int|
                                                    0 <= j < k && ids@[j] == out@[a].id;
                                                assert(ids@[j] < ids@[k as int]);
                                            }
                                        }
                                        out.push(entry);
                                        assert(out@[out@.len() - 1].id == ids@[k as int]);
                                    },
                                    None => {},
                                }
                            },
                            None => {},
                        }
                    },
                    None => {},
                }
            },
            None => {},
        }
        proof {
            assert forall|j: int| #![trigger ids@[j]]
                0 <= j < k + 1 && task_chain_ok(db::store_of(*conn), ids@[j]) implies exists|
                a: int,
            | 0 <= a < out@.len() && out@[a].id == ids@[j] by {
                if j < k {
                    let a = choose|a: int| 0 <= a < out0.len() && out0[a].id == ids@[j];
                    assert(out@[a] == out0[a]);
                } else {
                    assert(out@[out@.len() - 1].id == ids@[j]);
                }
            }
        }
        k = k + 1;
    }
    proof {
        let s = db::store_of(*conn);
        assert forall|tid: i64|
            #[trigger] s.research_tasks.contains((rid, tid)) && task_chain_ok(s, tid) implies
            exists|i: int| 0 <= i < out@.len() && out@[i].id == tid by {
            assert(ids@.contains(tid));
            let j = choose|j: int| 0 <= j < ids@.len() && ids@[j] == tid;
        }
        assert(task_entries_post(s, rid, out@));
    }
    Ok(out)
}

/// Lists everything a research record is associated with, across all four
/// hierarchy kinds in one combined result: projects, then modules, then
/// features, then tasks, ascending by id within each kind, each annotated
/// with its ancestor names.
#[verifier::rlimit(100)]
pub fn links(conn: &rusqlite::Connection, research_id: i64) -> (r: Result<Vec<LinkEntry>, MemError>)
    ensures
        ({
            let s = db::store_of(*conn);
            match r {
                Ok(v) => s.research.dom().contains(research_id) && links_post(s, research_id, v@),
                Err(e) => match e {
                    MemError::NotFound(k, t) => k == EntityKind::Research && t@ == spec_i64_string(
                        research_id as int,
                    ) && !s.research.dom().contains(research_id),
                    MemError::Storage(_) => true,
                    _ => false,
                },
            }
        }),
{
    let _linked = load_required(conn, research_id)?;
    let mut out = project_entries(conn, research_id)?;
    let mut modules = module_entries(conn, research_id)?;
    let mut features = feature_entries(conn, research_id)?;
    let mut tasks = task_entries(conn, research_id)?;
    let ghost vp = out@;
    let ghost vm = modules@;
    let ghost vf = features@;
    let ghost vt = tasks@;
    out.append(&mut modules);
    out.append(&mut features);
    out.append(&mut tasks);
    proof {
        let s = db::store_of(*conn);
        assert(out@ =~= vp + vm + vf + vt);
        let lp = vp.len() as int;
        let lm = vm.len() as int;
        let lf = vf.len() as int;
        assert forall|i: int, j: int| 0 <= i < j < out@.len() implies link_entry_le(
            #[trigger] out@[i],
            #[trigger] out@[j],
        ) by {
            if i < lp {
                assert(out@[i] == vp[i]);
            } else if i < lp + lm {
                assert(out@[i] == vm[i - lp]);
            } else if i < lp + lm + lf {
                assert(out@[i] == vf[i - lp - lm]);
            } else {
                assert(out@[i] == vt[i - lp - lm - lf]);
            }
            if j < lp {
                assert(out@[j] == vp[j]);
            } else if j < lp + lm {
                assert(out@[j] == vm[j - lp]);
            } else if j < lp + lm + lf {
                assert(out@[j] == vf[j - lp - lm]);
            } else {
                assert(out@[j] == vt[j - lp - lm - lf]);
            }
        }
        assert forall|i: int| 0 <= i < out@.len() implies link_entry_ok(
            s,
            research_id,
            #[trigger] out@[i],
        ) by {
            if i < lp {
                assert(out@[i] == vp[i]);
            } else if i < lp + lm {
                assert(out@[i] == vm[i - lp]);
            } else if i < lp + lm + lf {
                assert(out@[i] == vf[i - lp - lm]);
            } else {
                assert(out@[i] == vt[i - lp - lm - lf]);
            }
        }
        assert forall|pid: i64|
            #[trigger] s.research_projects.contains((research_id, pid)) && s.projects.dom()
                .contains(pid) implies exists|i: int|
            0 <= i < out@.len() && out@[i].kind == EntityKind::Project && out@[i].id == pid by {
            let a = choose|a: int| 0 <= a < vp.len() && vp[a].id == pid;
            assert(out@[a] == vp[a]);
        }
        assert forall|mid: i64|
            #[trigger] s.research_modules.contains((research_id, mid)) && module_chain_ok(
                s,
                mid,
            ) implies exists|i: int|
            0 <= i < out@.len() && out@[i].kind == EntityKind::Module && out@[i].id == mid by {
            let a = choose|a: int| 0 <= a < vm.len() && vm[a].id == mid;
            assert(out@[lp + a] == vm[a]);
        }
        assert forall|fid: i64|
            #[trigger] s.research_features.contains((research_id, fid)) && feature_chain_ok(
                s,
                fid,
            ) implies exists|i: int|
            0 <= i < out@.len() && out@[i].kind == EntityKind::Feature && out@[i].id == fid by {
            let a = choose|a: int| 0 <= a < vf.len() && vf[a].id == fid;
            assert(out@[lp + lm + a] == vf[a]);
        }
        assert forall|tid: i64|
            #[trigger] s.research_tasks.contains((research_id, tid)) && task_chain_ok(
                s,
                tid,
            ) implies exists|i: int|
            0 <= i < out@.len() && out@[i].kind == EntityKind::Task && out@[i].id == tid by {
            let a = choose|a: int| 0 <= a < vt.len() && vt[a].id == tid;
            assert(out@[lp + lm + lf + a] == vt[a]);
        }
        assert(links_post(s, research_id, out@));
    }
    Ok(out)
}

} // verus!
