use lopen_memory::db;
use lopen_memory::errors::{EntityKind, MemError, ValidationReason};
use lopen_memory::feature;
use lopen_memory::module;
use lopen_memory::output::{field, indent_content};
use lopen_memory::project;
use lopen_memory::research;
use lopen_memory::resolve;
use lopen_memory::state::{validate_transition, State};
use lopen_memory::task;

fn fresh() -> rusqlite::Connection {
    db::open(":memory:").expect("in-memory store")
}

#[test]
fn transition_table_is_exact() {
    let all = [
        State::Draft,
        State::Planning,
        State::Building,
        State::Complete,
        State::Amending,
    ];
    let allowed = [
        (State::Draft, State::Planning),
        (State::Planning, State::Building),
        (State::Planning, State::Draft),
        (State::Building, State::Complete),
        (State::Building, State::Draft),
        (State::Complete, State::Amending),
        (State::Complete, State::Draft),
        (State::Amending, State::Draft),
    ];
    for from in all.iter() {
        for to in all.iter() {
            let r = validate_transition(from.name(), to);
            if from == to {
                assert_eq!(r, Ok(false));
            } else if allowed.contains(&(*from, *to)) {
                assert_eq!(r, Ok(true));
            } else {
                assert_eq!(r, Err(MemError::InvalidTransition(*from, *to)));
            }
        }
    }
}

#[test]
fn transition_rejects_unknown_state_name() {
    let r = validate_transition("Started", &State::Draft);
    assert_eq!(
        r,
        Err(MemError::Validation(ValidationReason::InvalidStateName(
            "Started".to_string()
        )))
    );
}

#[test]
fn full_lifecycle_scenario() {
    let mut conn = fresh();
    let p = project::add(&mut conn, "p1", "/repo", "").unwrap();
    let m = module::add(&mut conn, p.id, "auth", "").unwrap();
    assert_eq!(m.state, "Draft");

    let err = module::transition(&mut conn, m.id, &State::Building).unwrap_err();
    assert_eq!(err, MemError::InvalidTransition(State::Draft, State::Building));
    let after = module::load(&conn, m.id).unwrap().unwrap();
    assert_eq!(after.state, "Draft");

    let stepped = module::transition(&mut conn, m.id, &State::Planning).unwrap();
    assert_eq!(stepped.unwrap().state, "Planning");
    let stepped = module::transition(&mut conn, m.id, &State::Building).unwrap();
    assert_eq!(stepped.unwrap().state, "Building");
    let reset = module::transition(&mut conn, m.id, &State::Draft).unwrap();
    assert_eq!(reset.unwrap().state, "Draft");
}

#[test]
fn transition_to_current_state_is_a_noop() {
    let mut conn = fresh();
    let p = project::add(&mut conn, "p", "/r", "").unwrap();
    let m = module::add(&mut conn, p.id, "core", "").unwrap();
    let before = module::load(&conn, m.id).unwrap().unwrap();
    let r = module::transition(&mut conn, m.id, &State::Draft).unwrap();
    assert!(r.is_none());
    let after = module::load(&conn, m.id).unwrap().unwrap();
    assert_eq!(before, after);
}

#[test]
fn numeric_token_resolves_regardless_of_scope() {
    let mut conn = fresh();
    let p1 = project::add(&mut conn, "p1", "/a", "").unwrap();
    let p2 = project::add(&mut conn, "p2", "/b", "").unwrap();
    let m = module::add(&mut conn, p1.id, "auth", "").unwrap();
    let token = m.id.to_string();
    assert_eq!(resolve::resolve_module(&conn, &token, None), Ok(m.id));
    assert_eq!(resolve::resolve_module(&conn, &token, Some(p2.id)), Ok(m.id));
}

#[test]
fn duplicate_name_without_scope_is_ambiguous() {
    let mut conn = fresh();
    let p1 = project::add(&mut conn, "p1", "/a", "").unwrap();
    let p2 = project::add(&mut conn, "p2", "/b", "").unwrap();
    let m1 = module::add(&mut conn, p1.id, "auth", "").unwrap();
    let m2 = module::add(&mut conn, p2.id, "auth", "").unwrap();
    let r = resolve::resolve_module(&conn, "auth", None);
    assert_eq!(
        r,
        Err(MemError::Ambiguous(
            EntityKind::Module,
            "auth".to_string(),
            "project".to_string()
        ))
    );
    assert_eq!(resolve::resolve_module(&conn, "auth", Some(p1.id)), Ok(m1.id));
    assert_eq!(resolve::resolve_module(&conn, "auth", Some(p2.id)), Ok(m2.id));
}

#[test]
fn missing_rows_resolve_to_not_found() {
    let conn = fresh();
    assert_eq!(
        resolve::resolve_project(&conn, "nope"),
        Err(MemError::NotFound(EntityKind::Project, "nope".to_string()))
    );
    assert_eq!(
        resolve::resolve_task(&conn, "12", None),
        Err(MemError::NotFound(EntityKind::Task, "12".to_string()))
    );
}

#[test]
fn is_id_reads_digit_runs_only() {
    assert!(resolve::is_id("42"));
    assert!(resolve::is_id("0"));
    assert!(!resolve::is_id("auth"));
    assert!(!resolve::is_id(""));
    assert!(!resolve::is_id("-3"));
    assert!(!resolve::is_id("12a"));
    assert!(!resolve::is_id("99999999999999999999"));
    assert!(resolve::is_id("9223372036854775807"));
}

#[test]
fn link_twice_keeps_one_association() {
    let mut conn = fresh();
    let p = project::add(&mut conn, "p", "/r", "").unwrap();
    let r = research::add(&mut conn, "notes", "").unwrap();
    research::link_project(&mut conn, r.id, p.id).unwrap();
    research::link_project(&mut conn, r.id, p.id).unwrap();
    let entries = research::links(&conn, r.id).unwrap();
    assert_eq!(entries.len(), 1);
    assert_eq!(entries[0].kind, EntityKind::Project);
    assert_eq!(entries[0].id, p.id);
    assert_eq!(entries[0].name, "p");
    assert_eq!(entries[0].context, "");
}

#[test]
fn unlink_absent_association_is_silent() {
    let mut conn = fresh();
    let p = project::add(&mut conn, "p", "/r", "").unwrap();
    let r = research::add(&mut conn, "notes", "").unwrap();
    research::unlink_project(&mut conn, r.id, p.id).unwrap();
    assert!(research::links(&conn, r.id).unwrap().is_empty());
    research::link_project(&mut conn, r.id, p.id).unwrap();
    research::unlink_module(&mut conn, r.id, p.id).unwrap();
    assert_eq!(research::links(&conn, r.id).unwrap().len(), 1);
}

#[test]
fn remove_module_blocks_then_cascades() {
    let mut conn = fresh();
    let p = project::add(&mut conn, "p", "/r", "").unwrap();
    let m = module::add(&mut conn, p.id, "auth", "").unwrap();
    let f1 = feature::add(&mut conn, m.id, "login", "").unwrap();
    let f2 = feature::add(&mut conn, m.id, "logout", "").unwrap();
    let t = task::add(&mut conn, f1.id, "wire-form", "").unwrap();
    let r = research::add(&mut conn, "oauth-notes", "").unwrap();
    research::link_feature(&mut conn, r.id, f1.id).unwrap();
    research::link_task(&mut conn, r.id, t.id).unwrap();

    let err = module::remove(&mut conn, m.id, false).unwrap_err();
    assert_eq!(err, MemError::ConflictHasChildren(2, "cascade".to_string()));
    assert!(module::load(&conn, m.id).unwrap().is_some());

    module::remove(&mut conn, m.id, true).unwrap();
    assert!(module::load(&conn, m.id).unwrap().is_none());
    assert!(feature::load(&conn, f1.id).unwrap().is_none());
    assert!(feature::load(&conn, f2.id).unwrap().is_none());
    assert!(task::load(&conn, t.id).unwrap().is_none());
    assert!(research::load(&conn, r.id).unwrap().is_some());
    assert!(research::links(&conn, r.id).unwrap().is_empty());
}

#[test]
fn tasks_are_always_deletable() {
    let mut conn = fresh();
    let p = project::add(&mut conn, "p", "/r", "").unwrap();
    let m = module::add(&mut conn, p.id, "core", "").unwrap();
    let f = feature::add(&mut conn, m.id, "api", "").unwrap();
    let t = task::add(&mut conn, f.id, "draft-spec", "").unwrap();
    let gone = task::remove(&mut conn, t.id).unwrap();
    assert_eq!(gone.id, t.id);
    assert!(task::load(&conn, t.id).unwrap().is_none());
}

#[test]
fn names_are_trimmed_and_must_not_be_empty() {
    let mut conn = fresh();
    let p = project::add(&mut conn, "  p1  ", "/repo", "").unwrap();
    assert_eq!(p.name, "p1");
    let err = project::add(&mut conn, "   ", "/x", "").unwrap_err();
    assert_eq!(err, MemError::Validation(ValidationReason::EmptyName));
    let err = module::add(&mut conn, p.id, "\t\n", "").unwrap_err();
    assert_eq!(err, MemError::Validation(ValidationReason::EmptyName));
}

#[test]
fn duplicate_names_in_scope_are_storage_conflicts() {
    let mut conn = fresh();
    let p = project::add(&mut conn, "p", "/r", "").unwrap();
    module::add(&mut conn, p.id, "auth", "").unwrap();
    let err = module::add(&mut conn, p.id, "auth", "").unwrap_err();
    assert!(matches!(err, MemError::Storage(_)));
}

#[test]
fn parse_date_normalizes_exactly() {
    assert_eq!(
        research::parse_date("2025-01-15").unwrap(),
        "2025-01-15T00:00:00Z"
    );
    assert_eq!(
        research::parse_date("2025-01-15T10:30:00Z").unwrap(),
        "2025-01-15T10:30:00Z"
    );
    let err = research::parse_date("15/01/2025").unwrap_err();
    assert_eq!(
        err,
        MemError::Validation(ValidationReason::InvalidDateFormat("15/01/2025".to_string()))
    );
    assert!(research::parse_date("2025-01-15T10:30:00").is_err());
}

#[test]
fn parse_date_rejects_ill_formed_digits() {
    let bad = [
        "2X25-01-15",
        "2025-0a-15",
        "2025-01-1x",
        "2025+01-15",
        "2X25-01-15T10:30:00Z",
        "2025-01-15T1e:30:00Z",
        "2025-01-15 10:30:00Z",
        "aaaaaaaaaaaaaaaaaaaZ",
    ];
    for s in bad {
        assert_eq!(
            research::parse_date(s),
            Err(MemError::Validation(ValidationReason::InvalidDateFormat(
                s.to_string()
            ))),
            "{} must be rejected",
            s
        );
    }
}

#[test]
fn set_researched_at_rejects_ill_formed_digits() {
    let mut conn = fresh();
    let r = research::add(&mut conn, "notes", "").unwrap();
    let before = research::load(&conn, r.id).unwrap().unwrap();
    let err = research::set_researched_at(&mut conn, r.id, "2X25-01-15").unwrap_err();
    assert_eq!(
        err,
        MemError::Validation(ValidationReason::InvalidDateFormat("2X25-01-15".to_string()))
    );
    let after = research::load(&conn, r.id).unwrap().unwrap();
    assert_eq!(before, after);
}

#[test]
fn set_researched_at_overrides_the_date() {
    let mut conn = fresh();
    let r = research::add(&mut conn, "notes", "").unwrap();
    let updated = research::set_researched_at(&mut conn, r.id, "2024-06-01").unwrap();
    assert_eq!(updated.researched_at, "2024-06-01T00:00:00Z");
}

#[test]
fn search_is_case_insensitive_substring() {
    let mut conn = fresh();
    let a = research::add(&mut conn, "OAuth flows", "token exchange").unwrap();
    research::add(&mut conn, "benchmarks", "latency numbers").unwrap();
    let hits = research::search(&conn, "OAUTH", None).unwrap();
    assert_eq!(hits.len(), 1);
    assert_eq!(hits[0].id, a.id);
    let hits = research::search(&conn, "exchange", None).unwrap();
    assert_eq!(hits.len(), 1);
    let hits = research::search(&conn, "missing", None).unwrap();
    assert!(hits.is_empty());
}

#[test]
fn list_filters_by_state_and_completion() {
    let mut conn = fresh();
    let p = project::add(&mut conn, "p", "/r", "").unwrap();
    let m1 = module::add(&mut conn, p.id, "one", "").unwrap();
    let m2 = module::add(&mut conn, p.id, "two", "").unwrap();
    module::transition(&mut conn, m2.id, &State::Planning).unwrap();
    let drafts = module::list(&conn, p.id, Some("Draft")).unwrap();
    assert_eq!(drafts.len(), 1);
    assert_eq!(drafts[0].id, m1.id);
    let all = module::list(&conn, p.id, None).unwrap();
    assert_eq!(all.len(), 2);

    project::set_completed(&mut conn, p.id, true).unwrap();
    let done = project::list(&conn, Some(true)).unwrap();
    assert_eq!(done.len(), 1);
    assert!(project::list(&conn, Some(false)).unwrap().is_empty());
}

#[test]
fn mutations_refresh_fields_and_return_snapshots() {
    let mut conn = fresh();
    let p = project::add(&mut conn, "p", "/r", "").unwrap();
    let m = module::add(&mut conn, p.id, "core", "first").unwrap();
    let renamed = module::rename(&mut conn, m.id, "  kernel ").unwrap();
    assert_eq!(renamed.name, "kernel");
    assert_eq!(renamed.description, "first");
    let described = module::set_description(&mut conn, m.id, "second").unwrap();
    assert_eq!(described.name, "kernel");
    assert_eq!(described.description, "second");
    let detailed = module::set_details(&mut conn, m.id, "notes here").unwrap();
    assert_eq!(detailed.details, "notes here");
    let loaded = module::load(&conn, m.id).unwrap().unwrap();
    assert_eq!(loaded, detailed);
}

#[test]
fn show_collects_children_and_research() {
    let mut conn = fresh();
    let p = project::add(&mut conn, "p", "/r", "").unwrap();
    let m = module::add(&mut conn, p.id, "auth", "").unwrap();
    let f = feature::add(&mut conn, m.id, "login", "").unwrap();
    let r = research::add(&mut conn, "notes", "why").unwrap();
    research::link_module(&mut conn, r.id, m.id).unwrap();
    let d = module::show(&conn, m.id).unwrap();
    assert_eq!(d.module.id, m.id);
    assert_eq!(d.project_name, "p");
    assert_eq!(d.features.len(), 1);
    assert_eq!(d.features[0].id, f.id);
    assert_eq!(d.research.len(), 1);
    assert_eq!(d.research[0].id, r.id);
}

#[test]
fn links_are_ordered_and_annotated() {
    let mut conn = fresh();
    let p = project::add(&mut conn, "proj", "/r", "").unwrap();
    let m = module::add(&mut conn, p.id, "mod", "").unwrap();
    let f = feature::add(&mut conn, m.id, "feat", "").unwrap();
    let t = task::add(&mut conn, f.id, "task", "").unwrap();
    let r = research::add(&mut conn, "notes", "").unwrap();
    research::link_task(&mut conn, r.id, t.id).unwrap();
    research::link_project(&mut conn, r.id, p.id).unwrap();
    research::link_feature(&mut conn, r.id, f.id).unwrap();
    research::link_module(&mut conn, r.id, m.id).unwrap();
    let entries = research::links(&conn, r.id).unwrap();
    assert_eq!(entries.len(), 4);
    assert_eq!(entries[0].kind, EntityKind::Project);
    assert_eq!(entries[0].context, "");
    assert_eq!(entries[1].kind, EntityKind::Module);
    assert_eq!(entries[1].context, "proj");
    assert_eq!(entries[2].kind, EntityKind::Feature);
    assert_eq!(entries[2].context, "proj > mod");
    assert_eq!(entries[3].kind, EntityKind::Task);
    assert_eq!(entries[3].context, "proj > mod > feat");
}

#[test]
fn removing_research_spares_the_hierarchy() {
    let mut conn = fresh();
    let p = project::add(&mut conn, "p", "/r", "").unwrap();
    let r = research::add(&mut conn, "notes", "").unwrap();
    research::link_project(&mut conn, r.id, p.id).unwrap();
    research::remove(&mut conn, r.id).unwrap();
    assert!(research::load(&conn, r.id).unwrap().is_none());
    assert!(project::load(&conn, p.id).unwrap().is_some());
}

#[test]
fn set_content_controls_the_research_date() {
    let mut conn = fresh();
    let r = research::add(&mut conn, "notes", "").unwrap();
    research::set_researched_at(&mut conn, r.id, "2020-01-01").unwrap();
    let kept = research::set_content(&mut conn, r.id, "body", false).unwrap();
    assert_eq!(kept.content, "body");
    assert_eq!(kept.researched_at, "2020-01-01T00:00:00Z");
    let moved = research::set_content(&mut conn, r.id, "body2", true).unwrap();
    assert_eq!(moved.researched_at, moved.updated_at);
}

#[test]
fn research_resolves_by_unique_name() {
    let mut conn = fresh();
    let r = research::add(&mut conn, "oauth", "").unwrap();
    assert_eq!(resolve::resolve_research(&conn, "oauth"), Ok(r.id));
    assert_eq!(
        resolve::resolve_research(&conn, "missing"),
        Err(MemError::NotFound(EntityKind::Research, "missing".to_string()))
    );
}

#[test]
fn field_aligns_the_value_column() {
    assert_eq!(field("id", "7"), "id:             7");
    assert_eq!(field("name", "auth"), "name:           auth");
    assert_eq!(
        field("averyverylongword", "x"),
        "averyverylongword:x"
    );
}

#[test]
fn indent_content_prefixes_every_line() {
    assert_eq!(indent_content(""), "");
    assert_eq!(indent_content("one"), "  one");
    assert_eq!(indent_content("a\nb"), "  a\n  b");
    assert_eq!(indent_content("a\n\nb"), "  a\n  \n  b");
    assert_eq!(indent_content("a\r\nb"), "  a\n  b");
    assert_eq!(indent_content("a\nb\n"), "  a\n  b");
}

#[test]
fn rename_with_blank_name_is_rejected_before_any_write() {
    let mut conn = fresh();
    let p = project::add(&mut conn, "p", "/r", "").unwrap();
    let m = module::add(&mut conn, p.id, "core", "").unwrap();
    let f = feature::add(&mut conn, m.id, "api", "").unwrap();
    let t = task::add(&mut conn, f.id, "step", "").unwrap();
    let r = research::add(&mut conn, "notes", "").unwrap();
    let before = module::load(&conn, m.id).unwrap().unwrap();
    let blank = MemError::Validation(ValidationReason::EmptyName);
    assert_eq!(project::rename(&mut conn, p.id, "  "), Err(blank.clone()));
    assert_eq!(module::rename(&mut conn, m.id, "\t"), Err(blank.clone()));
    assert_eq!(feature::rename(&mut conn, f.id, "\n"), Err(blank.clone()));
    assert_eq!(task::rename(&mut conn, t.id, " "), Err(blank.clone()));
    assert_eq!(research::rename(&mut conn, r.id, "   "), Err(blank));
    let after = module::load(&conn, m.id).unwrap().unwrap();
    assert_eq!(before, after);
}

#[test]
fn stored_timestamps_have_the_utc_second_shape() {
    let mut conn = fresh();
    let p = project::add(&mut conn, "p", "/r", "").unwrap();
    let m = module::add(&mut conn, p.id, "core", "").unwrap();
    let r = research::add(&mut conn, "notes", "").unwrap();
    for ts in [
        p.updated_at.as_str(),
        m.last_worked_on.as_str(),
        r.researched_at.as_str(),
        r.created_at.as_str(),
        r.updated_at.as_str(),
    ] {
        assert_eq!(ts.len(), 20);
        assert_eq!(&ts[4..5], "-");
        assert_eq!(&ts[7..8], "-");
        assert_eq!(&ts[10..11], "T");
        assert_eq!(&ts[13..14], ":");
        assert_eq!(&ts[16..17], ":");
        assert!(ts.ends_with('Z'));
        assert!(ts[0..4].chars().all(|c| c.is_ascii_digit()));
    }
}
