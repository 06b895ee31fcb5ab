use vstd::prelude::*;
use vstd::string::StrSliceExecFns;

use crate::auth::Rejection;
use crate::text::{is_white_space, lemma_trimmed_ends, trim, trimmed};

verus! {

/// A failure reported by the neo4rs driver, held opaque.
#[verifier::external_type_specification]
#[verifier::external_body]
pub struct ExNeo4rsError(neo4rs::Error);

/// An error that the Neo4j server sent, held opaque.
#[verifier::external_type_specification]
#[verifier::external_body]
pub struct ExNeo4jError(neo4rs::Neo4jError);

/// The error that the server sent, where a driver failure is one.
pub uninterp spec fn server_error_of(e: neo4rs::Error) -> Option<neo4rs::Neo4jError>;

/// Whether the server classified an error as `Client(Other)`.
pub uninterp spec fn other_client_of(e: neo4rs::Neo4jError) -> bool;

/// The status code that the server sent with an error.
pub uninterp spec fn code_of(e: neo4rs::Neo4jError) -> Seq<char>;

/// Relies on the `neo4rs::Error::Neo4j` variant: the error that the server
/// reported, where the failure is one.
#[verifier::external_body]
fn server_error(err: &neo4rs::Error) -> (r: Option<&neo4rs::Neo4jError>)
    ensures
        r is Some <==> server_error_of(*err) is Some,
        r matches Some(n) ==> server_error_of(*err) == Some(*n),
{
    match err {
        neo4rs::Error::Neo4j(e) => Some(e),
        _ => None,
    }
}

/// Relies on neo4rs::Neo4jError::kind: whether the server classified the error
/// as `Client(Other)`.
#[verifier::external_body]
fn is_other_client_error(err: &neo4rs::Neo4jError) -> (r: bool)
    ensures
        r == other_client_of(*err),
{
    matches!(err.kind(), neo4rs::Neo4jErrorKind::Client(neo4rs::Neo4jClientErrorKind::Other))
}

/// Relies on neo4rs::Neo4jError::code: the status code that the server sent.
#[verifier::external_body]
fn error_code(err: &neo4rs::Neo4jError) -> (r: &str)
    ensures
        r@ == code_of(*err),
{
    err.code()
}

/// A failure of the graph database that the caller caused.
#[derive(Clone, Copy, Debug, PartialEq, Eq, Structural)]
pub enum ClientError {
    /// A schema constraint (such as a unique username) was violated.
    ContraintValidation,
}

/// A failure of the graph database.
pub enum GraphError {
    Other(neo4rs::Error),
    Client(ClientError),
}

/// The status code with which the server reports a violated schema constraint.
pub open spec fn constraint_violation_code() -> Seq<char> {
    "Neo.ClientError.Schema.ConstraintValidationFailed"@
}

/// Whether a server error of the given classification and code is a violated
/// schema constraint.
pub fn is_constraint_violation(other_client_error: bool, code: &str) -> (r: bool)
    ensures
        r == (other_client_error && code@ == constraint_violation_code()),
{
    if !other_client_error {
        return false;
    }
    let expected = String::from_str("Neo.ClientError.Schema.ConstraintValidationFailed");
    code.to_owned() == expected
}

impl GraphError {
    /// Classifies a failure reported by the driver: a violated schema
    /// constraint is a client error, anything else is kept as it came.
    pub fn from_neo4rs(err: neo4rs::Error) -> (r: GraphError)
        ensures
            r is Client <==> (server_error_of(err) matches Some(n) && other_client_of(n) && code_of(
                n,
            ) == constraint_violation_code()),
            r matches GraphError::Other(e) ==> e == err,
            r matches GraphError::Client(c) ==> c == ClientError::ContraintValidation,
    {
        let violated = match server_error(&err) {
            Some(e) => is_constraint_violation(is_other_client_error(e), error_code(e)),
            None => false,
        };
        if violated {
            GraphError::Client(ClientError::ContraintValidation)
        } else {
            GraphError::Other(err)
        }
    }

    pub open spec fn spec_rejection(&self) -> Rejection {
        match self {
            GraphError::Other(_) => Rejection::InternalError,
            GraphError::Client(ClientError::ContraintValidation) => Rejection::Conflict,
        }
    }

    /// The status with which a request that met this failure is rejected.
    pub fn rejection(&self) -> (r: Rejection)
        ensures
            r == self.spec_rejection(),
    {
        match self {
            GraphError::Other(_) => Rejection::InternalError,
            GraphError::Client(ClientError::ContraintValidation) => Rejection::Conflict,
        }
    }
}

/// Position of the first `//` in `s` at or after `from`.
pub open spec fn find_comment(s: Seq<char>, from: int) -> Option<int>
    decreases s.len() - from,
{
    if from < 0 || from + 1 >= s.len() {
        None
    } else if s[from] == '/' && s[from + 1] == '/' {
        Some(from)
    } else {
        find_comment(s, from + 1)
    }
}

/// Position of the first `;` in `s` at or after `from`.
pub open spec fn find_semicolon(s: Seq<char>, from: int) -> Option<int>
    decreases s.len() - from,
{
    if from < 0 || from >= s.len() {
        None
    } else if s[from] == ';' {
        Some(from)
    } else {
        find_semicolon(s, from + 1)
    }
}

/// A script line without its `//` comment and surrounding whitespace.
pub open spec fn cleaned(line: Seq<char>) -> Seq<char> {
    match find_comment(line, 0) {
        Some(k) => trimmed(line.take(k)),
        None => trimmed(line),
    }
}

/// The pending statement text and the statements completed so far, after
/// the script line `line` is read. Blank lines are skipped; on a line with a
/// `;` the statement is completed there and what follows the first `;`
/// begins the next one; the parts of a statement are joined by a space.
pub open spec fn read_line(line: Seq<char>, pending: Seq<char>, done: Seq<Seq<char>>) -> (
    Seq<char>,
    Seq<Seq<char>>,
) {
    let l = cleaned(line);
    if l.len() == 0 {
        (pending, done)
    } else {
        match find_semicolon(l, 0) {
            Some(k) => (
                l.skip(k + 1) + seq![' '],
                done.push(trimmed(pending + l.take(k) + seq![';'])),
            ),
            None => (pending + l + seq![' '], done),
        }
    }
}

/// The state after the characters `s`: the start of the current line, the
/// pending statement text and the completed statements.
pub open spec fn scan(s: Seq<char>) -> (int, Seq<char>, Seq<Seq<char>>)
    decreases s.len(),
{
    if s.len() == 0 {
        (0, seq![], seq![])
    } else {
        let (start, pending, done) = scan(s.drop_last());
        if s.last() == '\n' {
            let (p, d) = read_line(s.subrange(start, s.len() - 1), pending, done);
            (s.len() as int, p, d)
        } else {
            (start, pending, done)
        }
    }
}

/// The statements of a migration script, each ending in `;`. Text after the
/// last `;` of the script is not a statement.
pub open spec fn statements(script: Seq<char>) -> Seq<Seq<char>> {
    let (start, pending, done) = scan(script);
    read_line(script.subrange(start, script.len() as int), pending, done).1
}

/// Whether `q` is a finished statement: it ends in `;` and has no white space
/// at either end.
pub open spec fn finished(q: Seq<char>) -> bool {
    q.len() > 0 && q.last() == ';' && !is_white_space(q[0]) && !is_white_space(q.last())
}

proof fn lemma_read_line_finished(line: Seq<char>, pending: Seq<char>, done: Seq<Seq<char>>)
    requires
        forall|i: int| 0 <= i < done.len() ==> finished(#[trigger] done[i]),
    ensures
        forall|i: int|
            0 <= i < read_line(line, pending, done).1.len() ==> finished(
                #[trigger] read_line(line, pending, done).1[i],
            ),
{
    let l = cleaned(line);
    if l.len() > 0 {
        if let Some(k) = find_semicolon(l, 0) {
            let q = pending + l.take(k) + seq![';'];
            lemma_trimmed_ends(q);
            assert(!is_white_space(';'));
        }
    }
}

proof fn lemma_scan_finished(s: Seq<char>)
    ensures
        forall|i: int| 0 <= i < scan(s).2.len() ==> finished(#[trigger] scan(s).2[i]),
    decreases s.len(),
{
    if s.len() > 0 {
        lemma_scan_finished(s.drop_last());
        let (start, pending, done) = scan(s.drop_last());
        lemma_read_line_finished(s.subrange(start, s.len() - 1), pending, done);
    }
}

/// Every statement of a migration script ends in `;` and has no white space
/// at either end.
pub proof fn lemma_statements_finished(script: Seq<char>)
    ensures
        forall|i: int|
            0 <= i < statements(script).len() ==> finished(#[trigger] statements(script)[i]),
{
    lemma_scan_finished(script);
    let (start, pending, done) = scan(script);
    lemma_read_line_finished(script.subrange(start, script.len() as int), pending, done);
}

proof fn lemma_scan_start(s: Seq<char>)
    ensures
        0 <= scan(s).0 <= s.len(),
    decreases s.len(),
{
    if s.len() > 0 {
        lemma_scan_start(s.drop_last());
    }
}

fn find_comment_exec(line: &str) -> (r: Option<usize>)
    ensures
        r matches Some(k) ==> find_comment(line@, 0) == Some(k as int) && k < line@.len(),
        r is None ==> find_comment(line@, 0) is None,
{
    let n = line.unicode_len();
    let mut i: usize = 0;
    while i < n && i + 1 < n
        invariant
            n == line@.len(),
            i <= n,
            find_comment(line@, 0) == find_comment(line@, i as int),
        decreases n - i,
    {
        if line.get_char(i) == '/' && line.get_char(i + 1) == '/' {
            return Some(i);
        }
        i = i + 1;
    }
    None
}

fn find_semicolon_exec(line: &str) -> (r: Option<usize>)
    ensures
        r matches Some(k) ==> find_semicolon(line@, 0) == Some(k as int) && k < line@.len(),
        r is None ==> find_semicolon(line@, 0) is None,
{
    let n = line.unicode_len();
    let mut i: usize = 0;
    while i < n
        invariant
            n == line@.len(),
            i <= n,
            find_semicolon(line@, 0) == find_semicolon(line@, i as int),
        decreases n - i,
    {
        if line.get_char(i) == ';' {
            return Some(i);
        }
        i = i + 1;
    }
    None
}

fn read_line_exec(line: &str, pending: &mut String, done: &mut Vec<String>)
    ensures
        (final(pending)@, final(done)@.map_values(|q: String| q@)) == read_line(
            line@,
            old(pending)@,
            old(done)@.map_values(|q: String| q@),
        ),
{
    proof {
        reveal_strlit(";");
        reveal_strlit(" ");
    }
    let uncommented = match find_comment_exec(line) {
        Some(k) => {
            let u = line.substring_char(0, k);
            assert(u@ =~= line@.take(k as int));
            u
        },
        None => line,
    };
    let l = trim(uncommented);
    assert(l@ == cleaned(line@));
    let n = l.unicode_len();
    if n == 0 {
        return ;
    }
    match find_semicolon_exec(l) {
        Some(k) => {
            let ghost old_pending = pending@;
            let head = l.substring_char(0, k);
            assert(head@ =~= l@.take(k as int));
            pending.append(head);
            pending.append(";");
            assert(pending@ =~= old_pending + l@.take(k as int) + seq![';']);
            let statement = trim(pending.as_str()).to_owned();
            let ghost before = done@.map_values(|q: String| q@);
            done.push(statement);
            assert(done@.map_values(|q: String| q@) =~= before.push(statement@));
            let mut next = String::new();
            let tail = l.substring_char(k + 1, n);
            assert(tail@ =~= l@.skip(k + 1));
            next.append(tail);
            next.append(" ");
            assert(next@ =~= l@.skip(k + 1) + seq![' ']);
            *pending = next;
        },
        None => {
            let ghost old_pending = pending@;
            pending.append(l);
            pending.append(" ");
            assert(pending@ =~= old_pending + l@ + seq![' ']);
        },
    }
}

/// The migration scripts that prepare the graph database's schema.
pub struct Migrations;

impl Migrations {
    /// The statements of a migration script, in order.
    pub fn statements(script: &str) -> (r: Vec<String>)
        ensures
            r@.map_values(|q: String| q@) == statements(script@),
            forall|i: int| 0 <= i < r@.len() ==> finished(#[trigger] r@[i]@),
    {
        let n = script.unicode_len();
        let mut start: usize = 0;
        let mut pending = String::new();
        let mut done: Vec<String> = Vec::new();
        let mut i: usize = 0;
        while i < n
            invariant
                n == script@.len(),
                i <= n,
                (start as int, pending@, done@.map_values(|q: String| q@)) == scan(
                    script@.take(i as int),
                ),
                start <= i,
            decreases n - i,
        {
            let ghost s = script@.take(i + 1);
            assert(s.drop_last() =~= script@.take(i as int));
            if script.get_char(i) == '\n' {
                assert(s.subrange(start as int, s.len() - 1) =~= script@.subrange(
                    start as int,
                    i as int,
                ));
                read_line_exec(script.substring_char(start, i), &mut pending, &mut done);
                start = i + 1;
            }
            i = i + 1;
        }
        assert(script@.take(n as int) =~= script@);
        read_line_exec(script.substring_char(start, n), &mut pending, &mut done);
        proof {
            lemma_statements_finished(script@);
            assert forall|i: int| 0 <= i < done@.len() implies finished(#[trigger] done@[i]@) by {
                assert(done@.map_values(|q: String| q@)[i] == done@[i]@);
                assert(finished(statements(script@)[i]));
            }
        }
        done
    }
}

} // verus!
