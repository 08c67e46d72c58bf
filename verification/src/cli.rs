//! What the management commands decide: which database call each command
//! makes and what it reports. Printing, exit codes and the JSON, CSV and
//! table renderings belong to the caller.
use crate::api_key::api_key_hash;
use crate::code::{generate_code, is_alphanumeric, is_valid_code, valid_code};
use crate::database::{Database, DatabaseError, UrlInfo};
use crate::server::{is_http_url, is_valid_http_url};
use crate::text::{has_prefix, i64_to_decimal, join2, signed_decimal};
use chrono::TimeZone;
use vstd::prelude::*;

verus! {

/// What a command reports: lines for standard output on success, or one
/// message for standard error on failure (the command then exits with 1).
pub enum CommandOutput {
    Success(Vec<String>),
    Failure(String),
}

/// The command succeeded and printed exactly these lines.
pub open spec fn prints(out: CommandOutput, lines: Seq<Seq<char>>) -> bool {
    out matches CommandOutput::Success(v) && v@.len() == lines.len() && forall|i: int|
        0 <= i < lines.len() ==> #[trigger] v@[i]@ == lines[i]
}

/// The command failed with exactly this message.
pub open spec fn fails_with(out: CommandOutput, message: Seq<char>) -> bool {
    out matches CommandOutput::Failure(m) && m@ == message
}

/// The command failed with a message that begins with `head`.
pub open spec fn fails_starting(out: CommandOutput, head: Seq<char>) -> bool {
    out matches CommandOutput::Failure(m) && has_prefix(m@, head)
}

/// The text `DatabaseError::message` gives for the errors of the storage
/// layer's own; `None` for the outside errors, whose text is theirs.
pub open spec fn known_message(e: DatabaseError) -> Option<Seq<char>> {
    match e {
        DatabaseError::NotFound => Some("not found"@),
        DatabaseError::UsernameAlreadyInUse => Some("username already in use"@),
        DatabaseError::CodeAlreadyInUse => Some("code already in use"@),
        DatabaseError::CouldNotGenerateApiKey => Some("could not generate API key"@),
        DatabaseError::ApiKey(_) => None,
        DatabaseError::Sqlite(_) => None,
    }
}

/// An error report: `head` followed by the error's message.
pub open spec fn is_error_report(m: Seq<char>, head: Seq<char>, e: DatabaseError) -> bool {
    &&& has_prefix(m, head)
    &&& known_message(e) matches Some(t) ==> m == head + t
}

/// The command failed with the report of `e` under `head`.
pub open spec fn fails_reporting(out: CommandOutput, head: Seq<char>, e: DatabaseError) -> bool {
    out matches CommandOutput::Failure(m) && is_error_report(m@, head, e)
}

fn one_line(line: String) -> (out: CommandOutput)
    ensures
        prints(out, seq![line@]),
{
    let mut lines: Vec<String> = Vec::new();
    lines.push(line);
    let out = CommandOutput::Success(lines);
    assert(prints(out, seq![line@]));
    out
}

fn error_message(head: &str, error: &DatabaseError) -> (message: String)
    ensures
        is_error_report(message@, head@, *error),
{
    let message = join2(head, error.message().as_str());
    assert(message@.subrange(0, head@.len() as int) =~= head@);
    message
}

fn error_with(head: &str, error: &DatabaseError) -> (out: CommandOutput)
    ensures
        fails_reporting(out, head@, *error),
{
    CommandOutput::Failure(error_message(head, error))
}

fn failure(message: &str) -> (out: CommandOutput)
    ensures
        fails_with(out, message@),
{
    CommandOutput::Failure(String::from_str(message))
}

/// What `create-user` reports for the result of storing the user.
pub fn user_created_report(result: Result<(), DatabaseError>) -> (out: CommandOutput)
    ensures
        match result {
            Ok(()) => prints(out, seq!["User created successfully"@]),
            Err(DatabaseError::UsernameAlreadyInUse) => fails_with(out, "User already exists"@),
            Err(e) => fails_reporting(out, "Error creating user: "@, e),
        },
{
    match result {
        Ok(()) => one_line(String::from_str("User created successfully")),
        Err(DatabaseError::UsernameAlreadyInUse) => failure("User already exists"),
        Err(error) => error_with("Error creating user: ", &error),
    }
}

/// What a listing command reports: the listed lines as they are, or the
/// error under `head`.
pub fn listed_report(head: &str, result: Result<Vec<String>, DatabaseError>) -> (out:
    CommandOutput)
    ensures
        match result {
            Ok(lines) => out == CommandOutput::Success(lines),
            Err(e) => fails_reporting(out, head@, e),
        },
{
    match result {
        Ok(lines) => CommandOutput::Success(lines),
        Err(error) => error_with(head, &error),
    }
}

/// What `delete-user` reports for the result of deactivating the user.
pub fn user_deleted_report(result: Result<(), DatabaseError>) -> (out: CommandOutput)
    ensures
        match result {
            Ok(()) => prints(out, seq!["User deleted successfully"@]),
            Err(DatabaseError::NotFound) => fails_with(out, "User not found"@),
            Err(e) => fails_reporting(out, "Error deleting user: "@, e),
        },
{
    match result {
        Ok(()) => one_line(String::from_str("User deleted successfully")),
        Err(DatabaseError::NotFound) => failure("User not found"),
        Err(error) => error_with("Error deleting user: ", &error),
    }
}

/// What `create-key` reports for the result of creating a key: the key.
pub fn key_created_report(result: Result<String, DatabaseError>) -> (out: CommandOutput)
    ensures
        match result {
            Ok(key) => prints(out, seq![key@]),
            Err(DatabaseError::NotFound) => fails_with(out, "User not found"@),
            Err(e) => fails_reporting(out, "Error creating API key: "@, e),
        },
{
    match result {
        Ok(key) => one_line(key),
        Err(DatabaseError::NotFound) => failure("User not found"),
        Err(error) => error_with("Error creating API key: ", &error),
    }
}

/// What `check-key` reports for the result of a key check: the owner's
/// name.
pub fn key_checked_report(result: Result<String, DatabaseError>) -> (out: CommandOutput)
    ensures
        match result {
            Ok(name) => prints(out, seq!["Valid (user: "@ + name@ + ")"@]),
            Err(DatabaseError::NotFound) => fails_with(out, "API key not valid"@),
            Err(e) => fails_reporting(out, "Error checking API key: "@, e),
        },
{
    match result {
        Ok(name) => {
            let head = join2("Valid (user: ", name.as_str());
            one_line(join2(head.as_str(), ")"))
        },
        Err(DatabaseError::NotFound) => failure("API key not valid"),
        Err(error) => error_with("Error checking API key: ", &error),
    }
}

/// What `delete-key` reports for the result of deactivating a key.
pub fn key_deleted_report(result: Result<(), DatabaseError>) -> (out: CommandOutput)
    ensures
        match result {
            Ok(()) => prints(out, seq!["API key deleted successfully"@]),
            Err(DatabaseError::NotFound) => fails_with(out, "API key not found"@),
            Err(e) => fails_reporting(out, "Error deleting API key: "@, e),
        },
{
    match result {
        Ok(()) => one_line(String::from_str("API key deleted successfully")),
        Err(DatabaseError::NotFound) => failure("API key not found"),
        Err(error) => error_with("Error deleting API key: ", &error),
    }
}

/// What `create` with a code reports for the result of storing it: the
/// code.
pub fn code_stored_report(code: &str, result: Result<(), DatabaseError>) -> (out: CommandOutput)
    ensures
        match result {
            Ok(()) => prints(out, seq![code@]),
            Err(DatabaseError::CodeAlreadyInUse) => fails_with(out, "Code already in use"@),
            Err(e) => fails_reporting(out, "Error creating code: "@, e),
        },
{
    match result {
        Ok(()) => one_line(String::from_str(code)),
        Err(DatabaseError::CodeAlreadyInUse) => failure("Code already in use"),
        Err(error) => error_with("Error creating code: ", &error),
    }
}

/// One attempt of `create` without a code, given the result of storing
/// the random `code`: its report when the attempt ends the command, `None`
/// when the code was taken and another is to be tried.
pub fn generated_attempt_report(code: String, result: Result<(), DatabaseError>) -> (out: Option<
    CommandOutput,
>)
    ensures
        match result {
            Ok(()) => out matches Some(o) && prints(o, seq![code@]),
            Err(DatabaseError::CodeAlreadyInUse) => out is None,
            Err(e) => out matches Some(o) && fails_reporting(o, "Error creating code: "@, e),
        },
{
    match result {
        Ok(()) => Some(one_line(code)),
        Err(DatabaseError::CodeAlreadyInUse) => None,
        Err(error) => Some(error_with("Error creating code: ", &error)),
    }
}

/// What `delete` reports for the result of removing a code.
pub fn code_deleted_report(result: Result<(), DatabaseError>) -> (out: CommandOutput)
    ensures
        match result {
            Ok(()) => prints(out, seq!["Code deleted successfully"@]),
            Err(DatabaseError::NotFound) => fails_with(out, "Code not found"@),
            Err(e) => fails_reporting(out, "Error deleting code: "@, e),
        },
{
    match result {
        Ok(()) => one_line(String::from_str("Code deleted successfully")),
        Err(DatabaseError::NotFound) => failure("Code not found"),
        Err(error) => error_with("Error deleting code: ", &error),
    }
}

/// What `list` makes of the listing: the codes as they are, or the message
/// to fail with.
pub fn codes_listed_report(result: Result<Vec<UrlInfo>, DatabaseError>) -> (res: Result<
    Vec<UrlInfo>,
    String,
>)
    ensures
        match result {
            Ok(v) => res == Ok::<Vec<UrlInfo>, String>(v),
            Err(e) => res matches Err(m) && is_error_report(m@, "Error listing codes: "@, e),
        },
{
    match result {
        Ok(codes) => Ok(codes),
        Err(error) => Err(error_message("Error listing codes: ", &error)),
    }
}

/// What `get` makes of the lookup: the information as it is, or the
/// message to fail with.
pub fn code_found_report(result: Result<UrlInfo, DatabaseError>) -> (res: Result<UrlInfo, String>)
    ensures
        match result {
            Ok(info) => res == Ok::<UrlInfo, String>(info),
            Err(DatabaseError::NotFound) => res matches Err(m) && m@ == "Code not found"@,
            Err(e) => res matches Err(m) && is_error_report(m@, "Error retrieving code: "@, e),
        },
{
    match result {
        Ok(info) => Ok(info),
        Err(DatabaseError::NotFound) => Err(String::from_str("Code not found")),
        Err(error) => Err(error_message("Error retrieving code: ", &error)),
    }
}

/// `create-user`: creates an active user.
pub fn create_user(database: &Database, username: &str) -> (out: CommandOutput)
    ensures
        ({
            ||| prints(out, seq!["User created successfully"@])
            ||| fails_with(out, "User already exists"@)
            ||| fails_starting(out, "Error creating user: "@)
        }),
{
    user_created_report(database.create_user(username))
}

/// `list-users`: prints the active users, one per line.
pub fn list_users(database: &Database) -> (out: CommandOutput)
    ensures
        out is Success || fails_starting(out, "Error listing users: "@),
{
    listed_report("Error listing users: ", database.list_users())
}

/// `delete-user`: deactivates a user and their keys.
pub fn delete_user(database: &Database, username: &str) -> (out: CommandOutput)
    ensures
        ({
            ||| prints(out, seq!["User deleted successfully"@])
            ||| fails_with(out, "User not found"@)
            ||| fails_starting(out, "Error deleting user: "@)
        }),
{
    user_deleted_report(database.delete_user(username))
}

/// `create-key`: prints a new API key for an active user.
pub fn create_key(database: &Database, username: &str) -> (out: CommandOutput)
    ensures
        out matches CommandOutput::Success(v) ==> v@.len() == 1 && api_key_hash(v@[0]@) is Some
            && v@[0]@.len() == 44,
        out matches CommandOutput::Failure(m) ==> (m@ == "User not found"@ || has_prefix(
            m@,
            "Error creating API key: "@,
        )),
{
    key_created_report(database.create_api_key(username))
}

/// `check-key`: accepts a plaintext key or, when no such key is known, a
/// key hash, and prints its owner. A text that is not base64 is an error
/// and is not tried as a hash.
pub fn check_key(database: &Database, key: &str) -> (out: CommandOutput)
    ensures
        api_key_hash(key@) is None ==> fails_starting(out, "Error checking API key: "@),
        ({
            ||| (out matches CommandOutput::Success(v) && v@.len() == 1 && has_prefix(
                v@[0]@,
                "Valid (user: "@,
            ))
            ||| fails_with(out, "API key not valid"@)
            ||| fails_starting(out, "Error checking API key: "@)
        }),
{
    let result = match database.check_api_key(key) {
        Err(DatabaseError::NotFound) => database.check_api_key_by_hash(key),
        other => other,
    };
    let out = key_checked_report(result);
    proof {
        if out is Success {
            let line = out->Success_0@[0]@;
            assert(line.subrange(0, "Valid (user: "@.len() as int) =~= "Valid (user: "@);
        }
    }
    out
}

/// `list-keys`: prints the hashes of a user's active keys, one per line.
pub fn list_keys(database: &Database, username: &str) -> (out: CommandOutput)
    ensures
        out is Success || fails_starting(out, "Error listing API keys: "@),
{
    listed_report("Error listing API keys: ", database.list_api_keys(username))
}

/// `delete-key`: deactivates a key given as plaintext or, when no such key
/// is known, as a hash. A text that is not base64 is an error and is not
/// tried as a hash.
pub fn delete_key(database: &Database, key: &str) -> (out: CommandOutput)
    ensures
        api_key_hash(key@) is None ==> fails_starting(out, "Error deleting API key: "@),
        ({
            ||| prints(out, seq!["API key deleted successfully"@])
            ||| fails_with(out, "API key not found"@)
            ||| fails_starting(out, "Error deleting API key: "@)
        }),
{
    let result = match database.delete_api_key(key) {
        Err(DatabaseError::NotFound) => database.delete_api_key_by_hash(key),
        other => other,
    };
    key_deleted_report(result)
}

/// The reports of `create` are told apart by their text: an error report
/// never reads as a refused URL or code, and the fixed messages differ.
proof fn lemma_create_reports_differ()
    ensures
        forall|m: Seq<char>|
            #[trigger] has_prefix(m, "Error creating code: "@) ==> m != "Invalid URL"@ && m
                != "Invalid code"@,
        "Could not generate a code; try again"@ != "Invalid URL"@,
        "Code already in use"@ != "Invalid URL"@,
        "Code already in use"@ != "Invalid code"@,
        "Invalid URL"@ != "Invalid code"@,
{
    reveal_strlit("Error creating code: ");
    reveal_strlit("Invalid URL");
    reveal_strlit("Invalid code");
    reveal_strlit("Could not generate a code; try again");
    reveal_strlit("Code already in use");
    assert("Invalid URL"@.len() == 11);
    assert("Invalid code"@.len() == 12);
    assert("Code already in use"@.len() == 19);
    assert("Could not generate a code; try again"@.len() == 36);
    assert forall|m: Seq<char>| #[trigger] has_prefix(m, "Error creating code: "@) implies m
        != "Invalid URL"@ && m != "Invalid code"@ by {
        assert(m.subrange(0, 21)[0] == 'E');
        assert(m[0] == 'E');
    }
}

/// Number of random codes `create` tries before giving up.
pub const CREATE_ATTEMPTS: usize = 3;

/// `create` without a code: checks the URL, then stores a random code of
/// `code_length` characters, trying up to three codes, and prints it.
pub fn create_generated(database: &Database, url: &str, code_length: usize, created_by: &str) -> (out:
    CommandOutput)
    requires
        code_length <= isize::MAX,
    ensures
        !is_http_url(url@) ==> fails_with(out, "Invalid URL"@),
        fails_with(out, "Invalid URL"@) ==> !is_http_url(url@),
        out matches CommandOutput::Success(v) ==> v@.len() == 1 && v@[0]@.len() == code_length
            && forall|i: int| 0 <= i < code_length ==> is_alphanumeric(#[trigger] v@[0]@[i]),
        out matches CommandOutput::Failure(m) ==> (m@ == "Invalid URL"@ || m@
            == "Could not generate a code; try again"@ || has_prefix(m@, "Error creating code: "@)),
{
    proof {
        lemma_create_reports_differ();
    }
    if !is_valid_http_url(url) {
        return failure("Invalid URL");
    }
    let mut attempt: usize = 0;
    while attempt < CREATE_ATTEMPTS
        invariant
            code_length <= isize::MAX,
            is_http_url(url@),
        decreases CREATE_ATTEMPTS - attempt,
    {
        let code = generate_code(code_length);
        let ghost generated = code@;
        let result = database.create_code(url, code.as_str(), created_by);
        match generated_attempt_report(code, result) {
            Some(out) => {
                assert(out is Success ==> out->Success_0@[0]@ == generated);
                proof {
                    lemma_create_reports_differ();
                }
                return out;
            },
            None => {},
        }
        attempt = attempt + 1;
    }
    proof {
        lemma_create_reports_differ();
    }
    failure("Could not generate a code; try again")
}

/// `create` with a code: checks the URL and the code, stores the code and
/// prints it.
pub fn create_custom(database: &Database, url: &str, code: &str, created_by: &str) -> (out:
    CommandOutput)
    ensures
        !is_http_url(url@) ==> fails_with(out, "Invalid URL"@),
        is_http_url(url@) && !valid_code(code@) ==> fails_with(out, "Invalid code"@),
        fails_with(out, "Invalid URL"@) ==> !is_http_url(url@),
        fails_with(out, "Invalid code"@) ==> is_http_url(url@) && !valid_code(code@),
        out is Success ==> prints(out, seq![code@]),
        out matches CommandOutput::Failure(m) ==> (m@ == "Invalid URL"@ || m@ == "Invalid code"@
            || m@ == "Code already in use"@ || has_prefix(m@, "Error creating code: "@)),
{
    proof {
        lemma_create_reports_differ();
    }
    if !is_valid_http_url(url) {
        return failure("Invalid URL");
    }
    if !is_valid_code(code) {
        return failure("Invalid code");
    }
    code_stored_report(code, database.create_code(url, code, created_by))
}

/// `delete`: removes a code.
pub fn delete_code(database: &Database, code: &str) -> (out: CommandOutput)
    ensures
        ({
            ||| prints(out, seq!["Code deleted successfully"@])
            ||| fails_with(out, "Code not found"@)
            ||| fails_starting(out, "Error deleting code: "@)
        }),
{
    code_deleted_report(database.delete_code(code))
}

/// `list`: all codes, oldest first, or the message to fail with.
pub fn list_codes(database: &Database) -> (res: Result<Vec<UrlInfo>, String>)
    ensures
        res matches Err(m) ==> has_prefix(m@, "Error listing codes: "@),
{
    codes_listed_report(database.list_codes())
}

/// `get`: the information on one code, or the message to fail with.
pub fn get_code(database: &Database, code: &str) -> (res: Result<UrlInfo, String>)
    ensures
        res matches Err(m) ==> (m@ == "Code not found"@ || has_prefix(
            m@,
            "Error retrieving code: "@,
        )),
{
    code_found_report(database.get_url_info(code))
}

/// How `chrono` renders a Unix timestamp in UTC with the pattern
/// `%Y-%m-%d %H:%M:%S UTC`; `None` when the timestamp is out of its range.
pub uninterp spec fn utc_timestamp_text(ts: i64) -> Option<Seq<char>>;

/// Calls `chrono::Utc.timestamp_opt(ts, 0).single()` and formats the date
/// with `%Y-%m-%d %H:%M:%S UTC`. Claimed: the result is the named
/// rendering of `ts`.
#[verifier::external_body]
fn utc_timestamp(ts: i64) -> (res: Option<String>)
    ensures
        match res {
            Some(s) => utc_timestamp_text(ts) == Some(s@),
            None => utc_timestamp_text(ts) is None,
        },
{
    match chrono::Utc.timestamp_opt(ts, 0).single() {
        Some(dt) => Some(dt.format("%Y-%m-%d %H:%M:%S UTC").to_string()),
        None => None,
    }
}

/// A timestamp as the listings show it: the UTC date and time, or the
/// plain number when it is out of range.
pub open spec fn timestamp_text(ts: i64) -> Seq<char> {
    match utc_timestamp_text(ts) {
        Some(s) => s,
        None => signed_decimal(ts as int),
    }
}

/// Formats a Unix timestamp as `YYYY-MM-DD HH:MM:SS UTC`, falling back to
/// the number itself when it cannot be represented.
pub fn format_timestamp(ts: i64) -> (res: String)
    ensures
        res@ == timestamp_text(ts),
{
    match utc_timestamp(ts) {
        Some(s) => s,
        None => i64_to_decimal(ts),
    }
}

/// Formats an optional timestamp; a missing one reads `never`.
pub fn format_optional_timestamp(ts: Option<i64>) -> (res: String)
    ensures
        match ts {
            Some(t) => res@ == timestamp_text(t),
            None => res@ == "never"@,
        },
{
    match ts {
        Some(t) => format_timestamp(t),
        None => String::from_str("never"),
    }
}

/// The lines `get --format plain` prints for a code.
pub fn url_info_lines(info: &UrlInfo) -> (res: Vec<String>)
    ensures
        res@.len() == 6,
        res@[0]@ == "Code:       "@ + info.code@,
        res@[1]@ == "URL:        "@ + info.url@,
        res@[2]@ == "Created at: "@ + timestamp_text(info.created_at),
        res@[3]@ == "Created by: "@ + info.created_by@,
        res@[4]@ == "Hits:       "@ + signed_decimal(info.hits as int),
        res@[5]@ == "Last hit:   "@ + match info.last_hit {
            Some(t) => timestamp_text(t),
            None => "never"@,
        },
{
    let mut lines: Vec<String> = Vec::new();
    lines.push(join2("Code:       ", info.code.as_str()));
    lines.push(join2("URL:        ", info.url.as_str()));
    lines.push(join2("Created at: ", format_timestamp(info.created_at).as_str()));
    lines.push(join2("Created by: ", info.created_by.as_str()));
    lines.push(join2("Hits:       ", i64_to_decimal(info.hits).as_str()));
    lines.push(join2("Last hit:   ", format_optional_timestamp(info.last_hit).as_str()));
    lines
}

} // verus!
