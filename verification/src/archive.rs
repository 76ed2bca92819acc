//! The values that a request to pack files into a zip archive is made of, and
//! the texts that answer it.

use vstd::prelude::*;
use vstd::string::*;

verus! {

/// The files to pack and where to write the archive.
#[derive(Debug, Clone)]
pub struct CreateZipRequest {
    pub file_paths: Vec<String>,
    pub output_path: String,
}

/// What the caller is told once the archive was written.
#[derive(Debug, Clone)]
pub struct CreateZipResponse {
    pub success: bool,
    pub message: String,
    pub output_path: String,
    pub size: u64,
}

/// The character of a decimal digit.
pub open spec fn digit_char(d: nat) -> char {
    if d == 0 {
        '0'
    } else if d == 1 {
        '1'
    } else if d == 2 {
        '2'
    } else if d == 3 {
        '3'
    } else if d == 4 {
        '4'
    } else if d == 5 {
        '5'
    } else if d == 6 {
        '6'
    } else if d == 7 {
        '7'
    } else if d == 8 {
        '8'
    } else {
        '9'
    }
}

/// A number in decimal, without leading zeros.
pub open spec fn decimal(n: nat) -> Seq<char>
    decreases n,
{
    if n < 10 {
        seq![digit_char(n)]
    } else {
        decimal(n / 10).push(digit_char(n % 10))
    }
}

/// The message of an archive made of `file_count` files.
pub open spec fn created_message(file_count: nat) -> Seq<char> {
    "Created zip with "@ + decimal(file_count) + " files"@
}

/// The text of one decimal digit.
pub fn digit_text(d: usize) -> (text: &'static str)
    requires
        d < 10,
    ensures
        text@ == seq![digit_char(d as nat)],
{
    proof {
        reveal_strlit("0");
        reveal_strlit("1");
        reveal_strlit("2");
        reveal_strlit("3");
        reveal_strlit("4");
        reveal_strlit("5");
        reveal_strlit("6");
        reveal_strlit("7");
        reveal_strlit("8");
        reveal_strlit("9");
    }
    let text = if d == 0 {
        "0"
    } else if d == 1 {
        "1"
    } else if d == 2 {
        "2"
    } else if d == 3 {
        "3"
    } else if d == 4 {
        "4"
    } else if d == 5 {
        "5"
    } else if d == 6 {
        "6"
    } else if d == 7 {
        "7"
    } else if d == 8 {
        "8"
    } else {
        "9"
    };
    assert(text@ =~= seq![digit_char(d as nat)]);
    text
}

/// Writes a number in decimal.
pub fn decimal_text(n: usize) -> (text: String)
    ensures
        text@ == decimal(n as nat),
    decreases n,
{
    if n < 10 {
        String::from_str(digit_text(n))
    } else {
        let mut text = decimal_text(n / 10);
        text.append(digit_text(n % 10));
        assert(text@ =~= decimal((n / 10) as nat).push(digit_char((n % 10) as nat)));
        text
    }
}

/// The name under which a file goes into the archive: the last component of
/// its path, `file_name`, where the path has one that is text. Where it has
/// none the file is refused, with the path in the message.
pub fn entry_name(file_path: &str, file_name: Option<String>) -> (r: Result<String, String>)
    ensures
        file_name.is_some() ==> r == Ok::<String, String>(file_name.unwrap()),
        file_name.is_none() ==> r.is_err() && r.unwrap_err()@ == "Invalid file name: "@
            + file_path@,
{
    match file_name {
        Some(name) => Ok(name),
        None => {
            let mut msg = String::from_str("Invalid file name: ");
            msg.append(file_path);
            Err(msg)
        },
    }
}

impl CreateZipResponse {
    /// The response to an archive of `file_count` files that was written to
    /// `output_path` and takes `size` bytes there.
    pub fn created(file_count: usize, output_path: String, size: u64) -> (r: CreateZipResponse)
        ensures
            r.success,
            r.message@ == created_message(file_count as nat),
            r.output_path == output_path,
            r.size == size,
    {
        let mut message = String::from_str("Created zip with ");
        let count = decimal_text(file_count);
        message.append(count.as_str());
        message.append(" files");
        CreateZipResponse { success: true, message, output_path, size }
    }
}

} // verus!
