use duckdbconn::attachments::{
    after_step, first_step, get_attachment_name, get_search_path, DuckDBAttachments, Step,
    TOKEN_LENGTH,
};
use duckdbconn::connection::DuckDbConnection;
use duckdbconn::error::Error;
use std::sync::Arc;

fn paths(names: &[&str]) -> Vec<Arc<str>> {
    names.iter().map(|name| Arc::from(*name)).collect()
}

#[test]
fn test_duckdb_attachments_deduplication() {
    let db1: Arc<str> = Arc::from("db1.duckdb");
    let db2: Arc<str> = Arc::from("db2.duckdb");
    let db3: Arc<str> = Arc::from("db3.duckdb");

    // Create attachments with duplicates
    let attachments = vec![
        Arc::clone(&db1),
        Arc::clone(&db2),
        Arc::clone(&db1), // duplicate of db1
        Arc::clone(&db3),
        Arc::clone(&db2), // duplicate of db2
    ];

    let duckdb_attachments = DuckDBAttachments::new("main_db", &attachments);

    // Verify that duplicates are removed
    assert_eq!(duckdb_attachments.attachments().len(), 3);
    assert!(duckdb_attachments.attachments().contains(&db1.to_string()));
    assert!(duckdb_attachments.attachments().contains(&db2.to_string()));
    assert!(duckdb_attachments.attachments().contains(&db3.to_string()));
}

#[test]
fn test_duckdb_attachments_search_path() {
    let db1: Arc<str> = Arc::from("db1.duckdb");
    let db2: Arc<str> = Arc::from("db2.duckdb");
    let db3: Arc<str> = Arc::from("db3.duckdb");

    // Create attachments with duplicates
    let attachments = vec![
        Arc::clone(&db1),
        Arc::clone(&db2),
        Arc::clone(&db1), // duplicate of db1
        Arc::clone(&db3),
        Arc::clone(&db2), // duplicate of db2
    ];

    let duckdb_attachments = DuckDBAttachments::new("main_db", &attachments);

    // Verify that the search path contains the main database and unique attachments
    let search_path = duckdb_attachments.search_path().to_string();
    assert!(search_path.starts_with("main_db"));
    assert!(search_path.contains("attachment_"));
    assert_eq!(search_path.split(',').count(), 4); // main_db + 3 unique attachments
}

#[test]
fn test_duckdb_attachments_empty() {
    let duckdb_attachments = DuckDBAttachments::new("main_db", &[]);

    // Verify empty attachments
    assert!(duckdb_attachments.attachments().is_empty());

    // Verify search path only contains main database
    let search_path = duckdb_attachments.search_path().to_string();
    assert_eq!(search_path, "main_db");
}

#[test]
fn first_occurrence_decides_the_order() {
    let set = DuckDBAttachments::with_token(
        "main",
        "tok".to_string(),
        &paths(&["b.db", "a.db", "b.db", "c.db", "a.db", "a.db"]),
    );
    assert_eq!(set.attachments(), &vec!["b.db".to_string(), "a.db".to_string(), "c.db".to_string()]);
    assert_eq!(set.len(), 3);
    assert_eq!(set.random_id(), "tok");
    assert_eq!(set.search_path(), "main,attachment_tok_0,attachment_tok_1,attachment_tok_2");
}

#[test]
fn session_token_is_eight_letters_or_digits() {
    let set = DuckDBAttachments::new("main", &paths(&["a.db"]));
    let token = set.random_id().to_string();
    assert_eq!(token.chars().count(), TOKEN_LENGTH);
    assert_eq!(TOKEN_LENGTH, 8);
    assert!(token.chars().all(|c| c.is_ascii_alphanumeric()));
    assert_eq!(set.search_path(), format!("main,attachment_{token}_0"));
}

#[test]
fn sessions_draw_their_own_tokens() {
    let tokens: Vec<String> = (0..8)
        .map(|_| DuckDBAttachments::new("main", &[]).random_id().to_string())
        .collect();
    assert!(tokens.iter().any(|token| token != &tokens[0]));
}

#[test]
fn alias_and_search_path_formulas() {
    assert_eq!(get_attachment_name("AbC123xy", 0), "attachment_AbC123xy_0");
    assert_eq!(get_attachment_name("AbC123xy", 12), "attachment_AbC123xy_12");
    assert_eq!(get_search_path("main", "t", 0), "main");
    assert_eq!(get_search_path("main", "t", 2), "main,attachment_t_0,attachment_t_1");
    let long = get_search_path("m", "t", 11);
    assert_eq!(long.split(',').count(), 12);
    assert!(long.ends_with(",attachment_t_9,attachment_t_10"));
}

#[test]
fn attach_checks_each_file_then_attaches_it_and_sets_the_search_path() {
    let set = DuckDBAttachments::with_token("main", "tok".to_string(), &paths(&["x.db", "y.db", "x.db"]));
    assert_eq!(
        set.attach(),
        vec![
            Step::CheckFile { path: "x.db".to_string() },
            Step::Execute {
                sql: "ATTACH IF NOT EXISTS 'x.db' AS attachment_tok_0 (READ_ONLY)".to_string()
            },
            Step::CheckFile { path: "y.db".to_string() },
            Step::Execute {
                sql: "ATTACH IF NOT EXISTS 'y.db' AS attachment_tok_1 (READ_ONLY)".to_string()
            },
            Step::Execute {
                sql: "SET search_path ='main,attachment_tok_0,attachment_tok_1'".to_string()
            },
        ]
    );
    assert_eq!(set.set_search_path(), "SET search_path ='main,attachment_tok_0,attachment_tok_1'");
}

#[test]
fn detach_detaches_each_alias_and_resets_the_search_path() {
    let set = DuckDBAttachments::with_token("main", "tok".to_string(), &paths(&["x.db", "y.db"]));
    assert_eq!(
        set.detach(),
        vec![
            Step::Execute { sql: "DETACH DATABASE IF EXISTS attachment_tok_0".to_string() },
            Step::Execute { sql: "DETACH DATABASE IF EXISTS attachment_tok_1".to_string() },
            Step::Execute { sql: "RESET search_path".to_string() },
        ]
    );
    assert_eq!(set.reset_search_path(), "RESET search_path");
}

#[test]
fn empty_set_only_touches_the_search_path() {
    let set = DuckDBAttachments::with_token("main", "tok".to_string(), &[]);
    assert_eq!(set.attach(), vec![Step::Execute { sql: "SET search_path ='main'".to_string() }]);
    assert_eq!(set.detach(), vec![Step::Execute { sql: "RESET search_path".to_string() }]);
}

#[test]
fn connection_passes_attaching_through_to_its_set() {
    let set = Arc::new(DuckDBAttachments::with_token("main", "tok".to_string(), &paths(&["x.db"])));
    let some = Some(Arc::clone(&set));
    assert_eq!(DuckDbConnection::attach(&some), set.attach());
    assert_eq!(DuckDbConnection::detach(&some), set.detach());
    assert!(DuckDbConnection::attach(&None).is_empty());
    assert!(DuckDbConnection::detach(&None).is_empty());
}

#[test]
fn a_failed_step_becomes_the_error_of_its_kind() {
    let check = Step::CheckFile { path: "missing.db".to_string() };
    assert_eq!(
        check.failure("No such file or directory".to_string()),
        Error::UnableToAttachDatabase {
            path: "missing.db".to_string(),
            source: "No such file or directory".to_string(),
        }
    );
    let execute = Step::Execute { sql: "DETACH DATABASE IF EXISTS attachment_tok_0".to_string() };
    assert_eq!(
        execute.failure("boom".to_string()),
        Error::DuckDBConnectionError { source: "boom".to_string() }
    );
}

/// Carries a plan out as the library asks; `fails` says which step fails.
/// Returns the steps that were asked for and how the plan ended.
fn carry_out(steps: &Vec<Step>, fails: impl Fn(usize) -> Option<String>) -> (Vec<usize>, Result<(), Error>) {
    let mut asked = vec![];
    let mut next = first_step(steps);
    while let Some(index) = next {
        asked.push(index);
        next = match after_step(steps, index, fails(index)) {
            Ok(next) => next,
            Err(error) => return (asked, Err(error)),
        };
    }
    (asked, Ok(()))
}

#[test]
fn a_plan_whose_steps_go_well_runs_through() {
    let set = DuckDBAttachments::with_token("main", "tok".to_string(), &paths(&["x.db", "y.db"]));
    let (asked, ended) = carry_out(&set.attach(), |_| None);
    assert_eq!(asked, vec![0, 1, 2, 3, 4]);
    assert_eq!(ended, Ok(()));
    let (asked, ended) = carry_out(&set.detach(), |_| None);
    assert_eq!(asked, vec![0, 1, 2]);
    assert_eq!(ended, Ok(()));
    assert_eq!(first_step(&vec![]), None);
}

#[test]
fn attaching_gives_up_at_the_first_missing_file() {
    let set = DuckDBAttachments::with_token("main", "tok".to_string(), &paths(&["x.db", "y.db", "z.db"]));
    let plan = set.attach();
    let (asked, ended) =
        carry_out(&plan, |index| if index >= 2 { Some("not found".to_string()) } else { None });
    assert_eq!(asked, vec![0, 1, 2]);
    assert_eq!(plan[2], Step::CheckFile { path: "y.db".to_string() });
    assert_eq!(
        ended,
        Err(Error::UnableToAttachDatabase { path: "y.db".to_string(), source: "not found".to_string() })
    );
}

#[test]
fn attaching_gives_up_at_the_first_rejected_statement() {
    let set = DuckDBAttachments::with_token("main", "tok".to_string(), &paths(&["x.db", "y.db"]));
    let plan = set.attach();
    let (asked, ended) =
        carry_out(&plan, |index| if index == 1 { Some("locked".to_string()) } else { None });
    assert_eq!(asked, vec![0, 1]);
    assert_eq!(ended, Err(Error::DuckDBConnectionError { source: "locked".to_string() }));
    let (asked, ended) =
        carry_out(&plan, |index| if index == 4 { Some("bad path".to_string()) } else { None });
    assert_eq!(asked, vec![0, 1, 2, 3, 4]);
    assert_eq!(ended, Err(Error::DuckDBConnectionError { source: "bad path".to_string() }));
}

#[test]
fn after_step_names_the_next_step_or_the_end() {
    let set = DuckDBAttachments::with_token("main", "tok".to_string(), &paths(&["x.db"]));
    let plan = set.detach();
    assert_eq!(first_step(&plan), Some(0));
    assert_eq!(after_step(&plan, 0, None), Ok(Some(1)));
    assert_eq!(after_step(&plan, 1, None), Ok(None));
    assert_eq!(
        after_step(&plan, 0, Some("gone".to_string())),
        Err(Error::DuckDBConnectionError { source: "gone".to_string() })
    );
}
