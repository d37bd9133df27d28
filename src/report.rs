use vstd::prelude::*;
use crate::thread::{CommentRecord, CommentView};

verus! {

/// An issue as the tracker returned it.
#[derive(Debug, Clone)]
pub struct IssueRecord {
    pub number: u64,
    pub id: u64,
    pub author: String,
    pub title: String,
    pub body: String,
    pub created_at: String,
    pub updated_at: String,
    pub labels: Vec<String>,
    /// How many comments the tracker counts for the issue.
    pub comments: u64,
}

pub ghost struct IssueView {
    pub number: nat,
    pub id: nat,
    pub author: Seq<char>,
    pub title: Seq<char>,
    pub body: Seq<char>,
    pub created_at: Seq<char>,
    pub updated_at: Seq<char>,
    pub labels: Seq<Seq<char>>,
    pub comments: nat,
}

impl View for IssueRecord {
    type V = IssueView;

    open spec fn view(&self) -> IssueView {
        IssueView {
            number: self.number as nat,
            id: self.id as nat,
            author: self.author@,
            title: self.title@,
            body: self.body@,
            created_at: self.created_at@,
            updated_at: self.updated_at@,
            labels: self.labels@.map_values(|l: String| l@),
            comments: self.comments as nat,
        }
    }
}

pub open spec fn digit(d: nat) -> char {
    if d == 0 { '0' }
    else if d == 1 { '1' }
    else if d == 2 { '2' }
    else if d == 3 { '3' }
    else if d == 4 { '4' }
    else if d == 5 { '5' }
    else if d == 6 { '6' }
    else if d == 7 { '7' }
    else if d == 8 { '8' }
    else { '9' }
}

/// The decimal digits of `n`, most significant first, without leading zeros.
pub open spec fn decimal(n: nat) -> Seq<char>
    decreases n,
{
    if n < 10 {
        seq![digit(n)]
    } else {
        decimal(n / 10).push(digit(n % 10))
    }
}

/// Relies on std's `Display` for `u64` (through `ToString`): plain decimal
/// digits, no sign, no padding.
#[verifier::external_body]
fn decimal_text(n: u64) -> (r: String)
    ensures
        r@ == decimal(n as nat),
{
    n.to_string()
}

/// What Rust's `Debug` prints for a list of strings.
pub uninterp spec fn debug_list_text(items: Seq<Seq<char>>) -> Seq<char>;

/// Relies on std's `Debug` for `Vec<String>`: the text depends on the
/// strings alone.
#[verifier::external_body]
fn debug_list(items: &Vec<String>) -> (r: String)
    ensures
        r@ == debug_list_text(items@.map_values(|l: String| l@)),
{
    format!("{:?}", items)
}

/// The block that presents an issue, given the rendering of its labels.
pub open spec fn issue_block_spec(i: IssueView, labels: Seq<char>) -> Seq<char> {
    "# "@ + decimal(i.number) + " - "@ + i.author + " - "@ + decimal(i.id) + "\n\n  ## "@ + i.title
        + "\n\n  "@ + i.body + "\n\n  ---------------------\n  created: "@ + i.created_at
        + "\n  updated: "@ + i.updated_at + "\n  labels: "@ + labels + "\n  "@ + decimal(i.comments)
        + " comments\n  ---------------------"@
}

/// The block that presents a comment: author and time, then the body, each
/// line indented by a tab.
pub open spec fn comment_block_spec(c: CommentView) -> Seq<char> {
    "\t# "@ + c.author + " on "@ + c.created_at + ":\n\t "@ + c.body + "\n\n"@
}

/// Renders an issue whose labels were rendered as `labels`.
pub fn issue_block_with(issue: &IssueRecord, labels: &str) -> (r: String)
    ensures
        r@ == issue_block_spec(issue@, labels@),
{
    let mut t = String::from_str("# ");
    let number = decimal_text(issue.number);
    t.append(number.as_str());
    t.append(" - ");
    t.append(issue.author.as_str());
    t.append(" - ");
    let id = decimal_text(issue.id);
    t.append(id.as_str());
    t.append("\n\n  ## ");
    t.append(issue.title.as_str());
    t.append("\n\n  ");
    t.append(issue.body.as_str());
    t.append("\n\n  ---------------------\n  created: ");
    t.append(issue.created_at.as_str());
    t.append("\n  updated: ");
    t.append(issue.updated_at.as_str());
    t.append("\n  labels: ");
    t.append(labels);
    t.append("\n  ");
    let count = decimal_text(issue.comments);
    t.append(count.as_str());
    t.append(" comments\n  ---------------------");
    t
}

/// Renders an issue, its labels as Rust's `Debug` prints a list of strings.
pub fn issue_block(issue: &IssueRecord) -> (r: String)
    ensures
        r@ == issue_block_spec(issue@, debug_list_text(issue@.labels)),
{
    let labels = debug_list(&issue.labels);
    issue_block_with(issue, labels.as_str())
}

/// Renders a comment.
pub fn comment_block(comment: &CommentRecord) -> (r: String)
    ensures
        r@ == comment_block_spec(comment@),
{
    let mut t = String::from_str("\t# ");
    t.append(comment.author.as_str());
    t.append(" on ");
    t.append(comment.created_at.as_str());
    t.append(":\n\t ");
    t.append(comment.body.as_str());
    t.append("\n\n");
    t
}

} // verus!
