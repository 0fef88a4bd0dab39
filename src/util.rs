use vstd::prelude::*;
use rusqlite::Connection;
use crate::models::sql_failure;
use crate::store::open;

verus! {

/// Directory, relative to the project root, that holds the store and the log.
pub const PROJECT_DIR: &'static str = ".science";

/// File name of the SQLite store inside the project directory.
pub const PROJECT_DB_FILE: &'static str = "Science.db";

/// File name of the append-only log inside the project directory.
pub const PROJECT_LOG_FILE: &'static str = "client.log";

pub open spec fn digit_char(d: nat) -> char {
    if d == 0 { '0' }
    else if d == 1 { '1' }
    else if d == 2 { '2' }
    else if d == 3 { '3' }
    else if d == 4 { '4' }
    else if d == 5 { '5' }
    else if d == 6 { '6' }
    else if d == 7 { '7' }
    else if d == 8 { '8' }
    else { '9' }
}

/// Decimal digits of a natural number, most significant first.
pub open spec fn decimal(n: nat) -> Seq<char>
    decreases n,
{
    if n < 10 {
        seq![digit_char(n)]
    } else {
        decimal(n / 10) + seq![digit_char(n % 10)]
    }
}

/// Decimal text of an integer, with a leading `-` when negative.
pub open spec fn int_text(n: int) -> Seq<char> {
    if n < 0 {
        seq!['-'] + decimal((-n) as nat)
    } else {
        decimal(n as nat)
    }
}

fn digit_str(d: u64) -> (r: &'static str)
    requires
        d < 10,
    ensures
        r@ == seq![digit_char(d as nat)],
{
    proof {
        reveal_strlit("0");
        reveal_strlit("1");
        reveal_strlit("2");
        reveal_strlit("3");
        reveal_strlit("4");
        reveal_strlit("5");
        reveal_strlit("6");
        reveal_strlit("7");
        reveal_strlit("8");
        reveal_strlit("9");
    }
    if d == 0 { "0" }
    else if d == 1 { "1" }
    else if d == 2 { "2" }
    else if d == 3 { "3" }
    else if d == 4 { "4" }
    else if d == 5 { "5" }
    else if d == 6 { "6" }
    else if d == 7 { "7" }
    else if d == 8 { "8" }
    else { "9" }
}

/// Decimal text of an unsigned integer.
pub fn decimal_string(n: u64) -> (r: String)
    ensures
        r@ == decimal(n as nat),
    decreases n,
{
    if n < 10 {
        String::from_str(digit_str(n))
    } else {
        let mut s = decimal_string(n / 10);
        s.append(digit_str(n % 10));
        s
    }
}

/// Decimal text of a signed integer.
pub fn int_string(n: i64) -> (r: String)
    ensures
        r@ == int_text(n as int),
{
    if n < 0 {
        let magnitude: u64 = (0 - (n as i128)) as u64;
        let digits = decimal_string(magnitude);
        proof {
            reveal_strlit("-");
        }
        String::from_str("-").concat(digits.as_str())
    } else {
        decimal_string(n as u64)
    }
}


/// Path of the log file, relative to the project root.
pub open spec fn logfile_path_text() -> Seq<char> {
    PROJECT_DIR@ + "/"@ + PROJECT_LOG_FILE@
}

/// Path of the store, relative to the project root.
pub open spec fn db_path_text() -> Seq<char> {
    PROJECT_DIR@ + "/"@ + PROJECT_DB_FILE@
}

pub fn logfile_path() -> (r: String)
    ensures
        r@ == logfile_path_text(),
{
    String::from_str(PROJECT_DIR).concat("/").concat(PROJECT_LOG_FILE)
}

pub fn db_path() -> (r: String)
    ensures
        r@ == db_path_text(),
{
    String::from_str(PROJECT_DIR).concat("/").concat(PROJECT_DB_FILE)
}

/// A failure of an operation.
///
/// `Generic` is an unexpected failure: its cause goes to the log and the user
/// is pointed there. `Specific` is an expected one: its message is shown to
/// the user as it is, and its cause, if any, goes to the log.
pub enum Error {
    Generic(Option<String>),
    Specific(Option<String>, String),
}

/// What an [`Error`] holds, as text.
pub enum ErrorModel {
    Generic(Option<Seq<char>>),
    Specific(Option<Seq<char>>, Seq<char>),
}

pub open spec fn text_of(o: Option<String>) -> Option<Seq<char>> {
    match o {
        Some(s) => Some(s@),
        None => None,
    }
}

impl View for Error {
    type V = ErrorModel;

    open spec fn view(&self) -> ErrorModel {
        match self {
            Error::Generic(cause) => ErrorModel::Generic(text_of(*cause)),
            Error::Specific(cause, msg) => ErrorModel::Specific(text_of(*cause), msg@),
        }
    }
}

/// The text that the user sees for an error.
pub open spec fn user_message(e: ErrorModel) -> Seq<char> {
    match e {
        ErrorModel::Generic(_) => "An error occurred.  Look in "@ + logfile_path_text()
            + " for more details."@,
        ErrorModel::Specific(_, msg) => msg,
    }
}

/// The text that goes to the log for an error, if any.
pub open spec fn log_entry(e: ErrorModel) -> Option<Seq<char>> {
    match e {
        ErrorModel::Generic(cause) => cause,
        ErrorModel::Specific(cause, _) => cause,
    }
}

fn copy_text(o: &Option<String>) -> (r: Option<String>)
    ensures
        text_of(r) == text_of(*o),
{
    match o {
        Some(s) => Some(s.clone()),
        None => None,
    }
}

impl Error {
    /// The text shown to the user.
    pub fn message(&self) -> (r: String)
        ensures
            r@ == user_message(self@),
    {
        match self {
            Error::Generic(_) => {
                let path = logfile_path();
                String::from_str("An error occurred.  Look in ").concat(path.as_str()).concat(
                    " for more details.",
                )
            },
            Error::Specific(_, msg) => msg.clone(),
        }
    }
}

/// The text to append to the log for `err`; `None` where there is nothing to
/// record.
pub fn log(err: &Error) -> (r: Option<String>)
    ensures
        text_of(r) == log_entry(err@),
{
    match err {
        Error::Generic(cause) => copy_text(cause),
        Error::Specific(cause, _) => copy_text(cause),
    }
}

/// An expected failure: `msg` is shown to the user, `cause` is logged.
pub fn specific_error(cause: Option<String>, msg: String) -> (r: Error)
    ensures
        r@ == ErrorModel::Specific(text_of(cause), msg@),
{
    Error::Specific(cause, msg)
}

/// An unexpected failure whose cause is logged.
pub fn generic_error(cause: String) -> (r: Error)
    ensures
        r@ == ErrorModel::Generic(Some(cause@)),
{
    Error::Generic(Some(cause))
}


/// `parts` with `sep` between each two neighbours.
pub open spec fn join_text(parts: Seq<Seq<char>>, sep: Seq<char>) -> Seq<char>
    decreases parts.len(),
{
    if parts.len() == 0 {
        Seq::empty()
    } else if parts.len() == 1 {
        parts[0]
    } else {
        join_text(parts.drop_last(), sep) + sep + parts.last()
    }
}

/// Concatenates `parts` with `sep` between each two neighbours.
pub fn join(parts: &Vec<String>, sep: &str) -> (r: String)
    ensures
        r@ == join_text(parts.deep_view(), sep@),
{
    let mut r = String::new();
    let mut i: usize = 0;
    while i < parts.len()
        invariant
            i <= parts.len(),
            r@ == join_text(parts.deep_view().take(i as int), sep@),
        decreases parts.len() - i,
    {
        proof {
            let dv = parts.deep_view();
            assert(dv.take(i + 1).drop_last() =~= dv.take(i as int));
            assert(dv.take(i + 1).last() == parts[i as int]@);
        }
        if i > 0 {
            r.append(sep);
        }
        r.append(parts[i].as_str());
        i += 1;
    }
    proof {
        assert(parts.deep_view().take(i as int) =~= parts.deep_view());
    }
    r
}


/// Opens the project's store.
pub fn new_conn() -> (r: Result<Connection, Error>)
    ensures
        r matches Err(e) ==> e@ matches ErrorModel::Generic(Some(_)),
{
    let path = db_path();
    match open(path.as_str()) {
        Ok(conn) => Ok(conn),
        Err(e) => Err(sql_failure(&e)),
    }
}

} // verus!
