use dit_import::authorship::{authorship_at, signature_for, ImportError};
use dit_import::import::{plan_issue, IssueWork, Mode};
use dit_import::report::{comment_block, issue_block, issue_block_with, IssueRecord};
use dit_import::thread::{CommentRecord, NodeId, NodeRequest, ThreadImport};

fn comment(author: &str, created_at: &str, body: &str) -> CommentRecord {
    CommentRecord { author: author.to_string(), created_at: created_at.to_string(), body: body.to_string() }
}

fn id(b: u8) -> NodeId {
    NodeId { bytes: vec![b; 20] }
}

fn issue(body: &str) -> IssueRecord {
    IssueRecord {
        number: 42,
        id: 9001,
        author: "alice".to_string(),
        title: "Crash on start".to_string(),
        body: body.to_string(),
        created_at: "2017-06-01T12:30:00+02:00".to_string(),
        updated_at: "2017-06-02T08:00:00Z".to_string(),
        labels: vec!["bug".to_string(), "help wanted".to_string()],
        comments: 2,
    }
}

fn request(t: &ThreadImport) -> NodeRequest {
    t.next_request().expect("a node is due").expect("timestamps parse")
}

#[test]
fn signature_with_positive_offset() {
    let a = signature_for("alice", "2017-06-01T12:30:00+02:00").unwrap();
    assert_eq!(a.name, "alice");
    assert_eq!(a.email, "unknown@email.tld");
    assert_eq!(a.seconds, 1496313000);
    assert_eq!(a.offset_minutes, 120);
}

#[test]
fn signature_with_negative_offset() {
    let a = signature_for("bob", "1970-01-01T00:00:00-05:30").unwrap();
    assert_eq!(a.seconds, 19800);
    assert_eq!(a.offset_minutes, -330);
}

#[test]
fn signature_in_utc() {
    let a = signature_for("carol", "2001-09-09T01:46:40Z").unwrap();
    assert_eq!(a.seconds, 1000000000);
    assert_eq!(a.offset_minutes, 0);
}

#[test]
fn malformed_timestamp_is_refused() {
    assert_eq!(signature_for("alice", "not-a-date").unwrap_err(), ImportError::MalformedTimestamp);
    assert_eq!(signature_for("alice", "2017-06-01 12:30").unwrap_err(), ImportError::MalformedTimestamp);
}

#[test]
fn derivation_is_deterministic() {
    let a = signature_for("dave", "2018-01-31T23:59:59+09:00").unwrap();
    let b = signature_for("dave", "2018-01-31T23:59:59+09:00").unwrap();
    assert_eq!((a.name, a.email, a.seconds, a.offset_minutes), (b.name, b.email, b.seconds, b.offset_minutes));
}

#[test]
fn offset_minutes_round_toward_zero() {
    assert_eq!(authorship_at("x", 0, -59).offset_minutes, 0);
    assert_eq!(authorship_at("x", 0, -61).offset_minutes, -1);
    assert_eq!(authorship_at("x", 0, 119).offset_minutes, 1);
}

#[test]
fn thread_is_root_then_one_reply_per_comment() {
    let comments = vec![
        comment("bob", "2017-06-01T13:00:00Z", "c1"),
        comment("carol", "2017-06-01T14:00:00Z", ""),
        comment("dave", "2017-06-01T15:00:00Z", "c3"),
    ];
    let mut t = ThreadImport::new(
        "alice".to_string(),
        "2017-06-01T12:30:00+02:00".to_string(),
        "Title\n\nBody".to_string(),
        comments,
    );
    let root = request(&t);
    assert!(root.parents.is_empty());
    assert_eq!(root.body, "Title\n\nBody");
    assert_eq!(root.author.name, "alice");
    t.node_created(id(1), Some("Re: Title".to_string()));
    for k in 2..=4u8 {
        assert!(!t.is_complete());
        let q = request(&t);
        assert_eq!(q.parents.len(), 1);
        assert_eq!(q.parents[0].bytes, id(k - 1).bytes);
        t.node_created(id(k), Some("Re: Title".to_string()));
    }
    assert!(t.is_complete());
    assert!(t.next_request().is_none());
    assert_eq!(t.node_count(), 4);
    assert_eq!(t.head().unwrap().bytes, id(4).bytes);
    assert_eq!(t.root().unwrap().bytes, id(1).bytes);
}

#[test]
fn empty_comment_is_still_chained() {
    let mut t = ThreadImport::new(
        "alice".to_string(),
        "2017-06-01T12:30:00Z".to_string(),
        "Title".to_string(),
        vec![comment("bob", "2017-06-01T13:00:00Z", "")],
    );
    t.node_created(id(1), None);
    let q = request(&t);
    assert_eq!(q.body, "");
    assert_eq!(q.author.name, "bob");
}

#[test]
fn reply_subject_follows_the_head() {
    let mut t = ThreadImport::new(
        "alice".to_string(),
        "2017-06-01T12:30:00Z".to_string(),
        "Title\n\nBody".to_string(),
        vec![comment("bob", "2017-06-01T13:00:00Z", "c1"), comment("carol", "2017-06-01T14:00:00Z", "c2")],
    );
    t.node_created(id(1), Some("Re: Title".to_string()));
    let first = request(&t);
    assert_eq!(first.body, "Re: Title\n\nc1");
    t.node_created(id(2), Some("Re: first reply".to_string()));
    let second = request(&t);
    assert_eq!(second.body, "Re: first reply\n\nc2");
}

#[test]
fn reply_without_subject_is_the_bare_comment() {
    let mut t = ThreadImport::new(
        "alice".to_string(),
        "2017-06-01T12:30:00Z".to_string(),
        "".to_string(),
        vec![comment("bob", "2017-06-01T13:00:00Z", "plain")],
    );
    t.node_created(id(1), None);
    assert_eq!(request(&t).body, "plain");
}

#[test]
fn zero_comment_issue_is_its_root() {
    let mut t = ThreadImport::new(
        "alice".to_string(),
        "2017-06-01T12:30:00Z".to_string(),
        "Title".to_string(),
        Vec::new(),
    );
    assert!(t.head().is_none());
    assert!(request(&t).parents.is_empty());
    t.node_created(id(7), Some("Re: Title".to_string()));
    assert!(t.is_complete());
    assert!(t.next_request().is_none());
    assert_eq!(t.node_count(), 1);
    assert_eq!(t.head().unwrap().bytes, id(7).bytes);
    assert_eq!(t.root().unwrap().bytes, t.head().unwrap().bytes);
}

#[test]
fn malformed_issue_timestamp_stops_before_the_root() {
    let t = ThreadImport::new("alice".to_string(), "not-a-date".to_string(), "Title".to_string(), Vec::new());
    assert_eq!(t.next_request().unwrap().unwrap_err(), ImportError::MalformedTimestamp);
    assert_eq!(t.node_count(), 0);
}

#[test]
fn malformed_comment_timestamp_stops_before_its_node() {
    let mut t = ThreadImport::new(
        "alice".to_string(),
        "2017-06-01T12:30:00Z".to_string(),
        "Title".to_string(),
        vec![comment("bob", "not-a-date", "c1")],
    );
    t.node_created(id(1), None);
    assert_eq!(t.next_request().unwrap().unwrap_err(), ImportError::MalformedTimestamp);
    assert_eq!(t.node_count(), 1);
}

#[test]
fn same_input_gives_same_requests() {
    let make = || {
        ThreadImport::new(
            "alice".to_string(),
            "2017-06-01T12:30:00Z".to_string(),
            "Title".to_string(),
            vec![comment("bob", "2017-06-01T13:00:00+01:00", "c1")],
        )
    };
    let (mut a, mut b) = (make(), make());
    for k in 1..=2u8 {
        let (qa, qb) = (request(&a), request(&b));
        assert_eq!(qa.body, qb.body);
        assert_eq!(qa.author.seconds, qb.author.seconds);
        assert_eq!(qa.author.offset_minutes, qb.author.offset_minutes);
        assert_eq!(qa.parents.len(), qb.parents.len());
        a.node_created(id(k), Some("Re: Title".to_string()));
        b.node_created(id(k), Some("Re: Title".to_string()));
    }
    assert!(a.is_complete() && b.is_complete());
}

#[test]
fn issue_block_text() {
    let text = issue_block(&issue("It crashes."));
    assert_eq!(
        text,
        "# 42 - alice - 9001\n\n  ## Crash on start\n\n  It crashes.\n\n  ---------------------\n  created: 2017-06-01T12:30:00+02:00\n  updated: 2017-06-02T08:00:00Z\n  labels: [\"bug\", \"help wanted\"]\n  2 comments\n  ---------------------"
    );
}

#[test]
fn issue_block_with_given_labels() {
    let mut i = issue("b");
    i.number = 0;
    i.id = 1234567890123;
    i.comments = 10;
    let text = issue_block_with(&i, "[]");
    assert!(text.starts_with("# 0 - alice - 1234567890123\n"));
    assert!(text.contains("\n  labels: []\n  10 comments\n"));
}

#[test]
fn comment_block_text() {
    assert_eq!(
        comment_block(&comment("bob", "2017-06-01T13:00:00Z", "Me too")),
        "\t# bob on 2017-06-01T13:00:00Z:\n\t Me too\n\n"
    );
}

#[test]
fn dry_run_prints_one_block_per_issue_and_comment() {
    let comments = vec![comment("bob", "2017-06-01T13:00:00Z", "c1"), comment("carol", "bad", "c2")];
    match plan_issue(Mode::DryRun, issue("x"), comments) {
        IssueWork::Print(blocks) => {
            assert_eq!(blocks.len(), 3);
            assert!(blocks[0].starts_with("# 42 - alice - 9001"));
            assert_eq!(blocks[1], "\t# bob on 2017-06-01T13:00:00Z:\n\t c1\n\n");
            assert_eq!(blocks[2], "\t# carol on bad:\n\t c2\n\n");
        }
        IssueWork::Persist(_) => panic!("a dry run must not write"),
    }
}

#[test]
fn commit_mode_starts_an_empty_thread() {
    match plan_issue(Mode::Commit, issue("x"), vec![comment("bob", "2017-06-01T13:00:00Z", "c1")]) {
        IssueWork::Persist(t) => {
            assert_eq!(t.node_count(), 0);
            assert!(!t.is_complete());
            assert_eq!(request(&t).body, "x");
        }
        IssueWork::Print(_) => panic!("a commit run must write"),
    }
}
