use vstd::prelude::*;

verus! {

#[verifier::external_type_specification]
#[verifier::external_body]
pub struct ExParseIntError(std::num::ParseIntError);

pub open spec fn is_ascii_digit(c: char) -> bool {
    '0' <= c && c <= '9'
}

/// The number written by a sequence of decimal digits, most significant first.
pub open spec fn digits_value(s: Seq<char>) -> nat
    decreases s.len(),
{
    if s.len() == 0 {
        0
    } else {
        digits_value(s.drop_last()) * 10 + ((s.last() as u32 - '0' as u32) as nat)
    }
}

/// The digits of an unsigned decimal literal: the text without a leading `+`.
pub open spec fn unsigned_digits(s: Seq<char>) -> Seq<char> {
    if s.len() > 0 && s[0] == '+' {
        s.drop_first()
    } else {
        s
    }
}

/// `s` is the text of a `u32`: an optional `+`, then one or more ASCII digits,
/// with a value that fits in 32 bits.
pub open spec fn is_u32_text(s: Seq<char>) -> bool {
    let d = unsigned_digits(s);
    &&& d.len() > 0
    &&& forall|i: int| 0 <= i < d.len() ==> is_ascii_digit(#[trigger] d[i])
    &&& digits_value(d) <= u32::MAX
}

/// The value of a `u32` text.
pub open spec fn u32_text_value(s: Seq<char>) -> nat {
    digits_value(unsigned_digits(s))
}

/// Relies on `str::parse::<u32>` (`u32::from_str`, radix 10): it accepts exactly
/// an optional `+` followed by at least one ASCII digit whose value fits in a
/// `u32`, and returns that value; anything else is a `ParseIntError`.
#[verifier::external_body]
pub(crate) fn parse_u32(s: &str) -> (r: Result<u32, std::num::ParseIntError>)
    ensures
        r.is_ok() <==> is_u32_text(s@),
        r matches Ok(v) ==> v as nat == u32_text_value(s@),
{
    s.parse::<u32>()
}

/// The backend's vendor code for a violated unique constraint.
pub const DUPLICATE_KEY: u32 = 23505;

/// A failure reported by the relational backend, reduced to what the
/// classification reads.
#[derive(Debug, Clone)]
pub enum DbError {
    /// The backend rejected the statement, with its vendor-specific code if it gave one.
    Database(Option<String>),
    /// A statement that must yield a row yielded none.
    RowNotFound,
    /// Any other failure: connection, pool, protocol or decoding.
    Other(String),
}

/// The closed set of failures of the core.
#[derive(Debug)]
pub enum Error {
    ParseError(std::num::ParseIntError),
    MissingParameters,
    RangeError,
    QuestionNotFound,
    DatabaseQueryError(DbError),
    WrongPassword,
    /// The password-verification primitive itself failed; holds its description.
    ArgonLibraryError(String),
    CannotDecrptToken,
    Unauthorized,
    /// Schema migration failed at startup; holds its description.
    MigrationError(String),
}

/// How a backend failure is presented: a conflict with an existing resource,
/// or a plain failure of the read or write.
#[derive(Debug, Clone, Copy, PartialEq, Eq, Structural)]
pub enum DbErrorClass {
    Conflict,
    Failure,
}

/// The failure is the backend's unique-constraint violation.
pub open spec fn is_duplicate_key(e: DbError) -> bool {
    match e {
        DbError::Database(Some(code)) => is_u32_text(code@) && u32_text_value(code@)
            == DUPLICATE_KEY as nat,
        _ => false,
    }
}

pub open spec fn db_error_class(e: DbError) -> DbErrorClass {
    if is_duplicate_key(e) {
        DbErrorClass::Conflict
    } else {
        DbErrorClass::Failure
    }
}

/// Classifies a backend failure by its vendor code: a unique-constraint
/// violation is a conflict, everything else a plain failure. A missing or
/// non-numeric code is a plain failure.
pub fn classify_database_error(e: &DbError) -> (r: DbErrorClass)
    ensures
        r == db_error_class(*e),
{
    match e {
        DbError::Database(Some(code)) => {
            match parse_u32(code.as_str()) {
                Ok(v) => {
                    if v == DUPLICATE_KEY {
                        DbErrorClass::Conflict
                    } else {
                        DbErrorClass::Failure
                    }
                },
                Err(_) => DbErrorClass::Failure,
            }
        },
        _ => DbErrorClass::Failure,
    }
}

/// The backend failure is a plain failure, not a conflict.
pub open spec fn is_plain_failure(e: Error) -> bool {
    e matches Error::DatabaseQueryError(d) && db_error_class(d) == DbErrorClass::Failure
}

/// The backend failure is a conflict with an existing resource.
pub open spec fn is_conflict(e: Error) -> bool {
    e matches Error::DatabaseQueryError(d) && db_error_class(d) == DbErrorClass::Conflict
}

/// The text of the duplicate-key code reads as that code.
pub proof fn lemma_duplicate_key_text()
    ensures
        is_u32_text("23505"@),
        u32_text_value("23505"@) == DUPLICATE_KEY as nat,
{
    reveal_strlit("23505");
    let s = "23505"@;
    assert(unsigned_digits(s) == s);
    assert(s[0] == '2' && s[1] == '3' && s[2] == '5' && s[3] == '0' && s[4] == '5');
    assert(digits_value(s.take(0)) == 0);
    assert(digits_value(s.take(1)) == 2) by {
        assert(s.take(1).drop_last() =~= s.take(0));
        assert(s.take(1).last() == '2');
    }
    assert(digits_value(s.take(2)) == 23) by {
        assert(s.take(2).drop_last() =~= s.take(1));
        assert(s.take(2).last() == '3');
    }
    assert(digits_value(s.take(3)) == 235) by {
        assert(s.take(3).drop_last() =~= s.take(2));
        assert(s.take(3).last() == '5');
    }
    assert(digits_value(s.take(4)) == 2350) by {
        assert(s.take(4).drop_last() =~= s.take(3));
        assert(s.take(4).last() == '0');
    }
    assert(digits_value(s) == 23505) by {
        assert(s.drop_last() =~= s.take(4));
    }
}

/// The error that the backend gives for a violated unique constraint.
pub(crate) fn duplicate_key_error() -> (e: Error)
    ensures
        is_conflict(e),
{
    proof {
        lemma_duplicate_key_text();
    }
    Error::DatabaseQueryError(DbError::Database(Some(String::from_str("23505"))))
}

/// The error that the backend gives when an identifier sequence is exhausted.
pub(crate) fn sequence_exhausted_error() -> (e: Error)
    ensures
        is_plain_failure(e),
{
    let code = String::from_str("2200H");
    proof {
        reveal_strlit("2200H");
        assert(!is_ascii_digit(unsigned_digits(code@)[4]));
    }
    Error::DatabaseQueryError(DbError::Database(Some(code)))
}

/// What a failure shows to the client of the service: a status code and a
/// text.
pub struct ErrorReply {
    pub status: u16,
    pub message: String,
}

pub open spec fn reply_status(e: Error) -> u16 {
    match e {
        Error::DatabaseQueryError(_) => 422,
        Error::WrongPassword => 401,
        Error::Unauthorized => 401,
        _ => 404,
    }
}

pub open spec fn reply_message(e: Error) -> Seq<char> {
    match e {
        Error::DatabaseQueryError(d) => if is_duplicate_key(d) {
            "Account already exists"@
        } else {
            "Cannot update data"@
        },
        Error::WrongPassword => "Wrong E-Mail/Password combination"@,
        Error::Unauthorized => "No permission to change underlying resource"@,
        _ => "Route not found"@,
    }
}

/// The reply the client sees for a failure. A backend failure is
/// unprocessable, with its own text for a duplicate key; a wrong password and
/// a foreign resource are unauthorized; anything else reads as a route that
/// was not found.
pub fn error_reply(e: &Error) -> (r: ErrorReply)
    ensures
        r.status == reply_status(*e),
        r.message@ == reply_message(*e),
{
    match e {
        Error::DatabaseQueryError(d) => {
            let message = match classify_database_error(d) {
                DbErrorClass::Conflict => String::from_str("Account already exists"),
                DbErrorClass::Failure => String::from_str("Cannot update data"),
            };
            ErrorReply { status: 422, message }
        },
        Error::WrongPassword => ErrorReply {
            status: 401,
            message: String::from_str("Wrong E-Mail/Password combination"),
        },
        Error::Unauthorized => ErrorReply {
            status: 401,
            message: String::from_str("No permission to change underlying resource"),
        },
        _ => ErrorReply { status: 404, message: String::from_str("Route not found") },
    }
}

pub open spec fn description(e: Error) -> Seq<char> {
    match e {
        Error::ParseError(_) => "Cannot parse parameter: "@,
        Error::MissingParameters => "Missing parameter"@,
        Error::RangeError => "Range error"@,
        Error::QuestionNotFound => "Question Not Found"@,
        Error::DatabaseQueryError(_) => "Query couldn't be executed"@,
        Error::WrongPassword => "Wrong Password"@,
        Error::ArgonLibraryError(_) => "Can't verify password"@,
        Error::CannotDecrptToken => "Cannot decrypt token"@,
        Error::Unauthorized => "Request is unauthorized"@,
        Error::MigrationError(_) => "Error when doing migration"@,
    }
}

impl Error {
    /// The text of the failure. A parse failure adds the parser's own text
    /// after the description; every other failure is its description alone.
    pub fn message(&self) -> (r: String)
        ensures
            !(self is ParseError) ==> r@ == description(*self),
            self is ParseError ==> r@.len() >= description(*self).len() && r@.subrange(
                0,
                description(*self).len() as int,
            ) == description(*self),
    {
        match self {
            Error::ParseError(err) => {
                let prefix = String::from_str("Cannot parse parameter: ");
                let detail = err.to_string();
                let r = prefix.concat(detail.as_str());
                assert(r@.subrange(0, description(*self).len() as int) =~= description(*self));
                r
            },
            Error::MissingParameters => String::from_str("Missing parameter"),
            Error::RangeError => String::from_str("Range error"),
            Error::QuestionNotFound => String::from_str("Question Not Found"),
            Error::DatabaseQueryError(_) => String::from_str("Query couldn't be executed"),
            Error::WrongPassword => String::from_str("Wrong Password"),
            Error::ArgonLibraryError(_) => String::from_str("Can't verify password"),
            Error::CannotDecrptToken => String::from_str("Cannot decrypt token"),
            Error::Unauthorized => String::from_str("Request is unauthorized"),
            Error::MigrationError(_) => String::from_str("Error when doing migration"),
        }
    }
}

} // verus!
