use vstd::prelude::*;
use vstd::string::StrSliceExecFns;

use crate::error::ApiResponse;

verus! {

/// Whether a file name ends in one of the accepted image extensions,
/// `.png` or `.jpg`.
pub open spec fn has_image_extension(name: Seq<char>) -> bool {
    &&& name.len() >= 4
    &&& name[name.len() - 4] == '.'
    &&& {
        ||| name[name.len() - 3] == 'p' && name[name.len() - 2] == 'n' && name[name.len() - 1]
            == 'g'
        ||| name[name.len() - 3] == 'j' && name[name.len() - 2] == 'p' && name[name.len() - 1]
            == 'g'
    }
}

/// The file name an upload is judged by: the one provided, or `null`
/// when the form carried none.
pub open spec fn effective_file_name(file_name: Option<Seq<char>>) -> Seq<char> {
    match file_name {
        Option::Some(n) => n,
        Option::None => "null"@,
    }
}

/// The checks a new post's upload must pass before any file or database
/// work: the file name must end in an accepted image extension, and the
/// size must be positive and at most `max_file_size`. Each failure is a
/// 400 with its own message; the name is judged first.
pub fn validate_upload(file_name: Option<&str>, size: u64, max_file_size: u64) -> (r: Result<
    (),
    ApiResponse,
>)
    ensures
        !has_image_extension(effective_file_name(match file_name {
            Option::Some(n) => Some(n@),
            Option::None => None,
        })) ==> (r matches Err(a) && a.status_code == 400 && a.body@
            == "Bad Request, Invalid File Name"@),
        has_image_extension(effective_file_name(match file_name {
            Option::Some(n) => Some(n@),
            Option::None => None,
        })) ==> {
            &&& size == 0 ==> (r matches Err(a) && a.status_code == 400 && a.body@
                == "Invalid File Type"@)
            &&& size > max_file_size ==> (r matches Err(a) && a.status_code == 400 && a.body@
                == "File too big"@)
            &&& (0 < size <= max_file_size) ==> r is Ok
        },
{
    let name: &str = match file_name {
        Some(n) => n,
        None => "null",
    };
    let n = name.unicode_len();
    let ext_ok: bool = if n < 4 {
        false
    } else {
        let dot = name.get_char(n - 4);
        let c1 = name.get_char(n - 3);
        let c2 = name.get_char(n - 2);
        let c3 = name.get_char(n - 1);
        dot == '.' && ((c1 == 'p' && c2 == 'n' && c3 == 'g') || (c1 == 'j' && c2 == 'p' && c3
            == 'g'))
    };
    if !ext_ok {
        return Err(ApiResponse::new(400, "Bad Request, Invalid File Name".to_owned()));
    }
    if size == 0 {
        return Err(ApiResponse::new(400, "Invalid File Type".to_owned()));
    }
    if size > max_file_size {
        return Err(ApiResponse::new(400, "File too big".to_owned()));
    }
    Ok(())
}

} // verus!
