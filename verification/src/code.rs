//! Result codes and column type tags of the engine boundary.
use vstd::prelude::*;

verus! {

/// The call completed.
pub const SQLITE_OK: i32 = 0;

/// A step produced a row that is ready to be read.
pub const SQLITE_ROW: i32 = 100;

/// A step ran the statement to completion.
pub const SQLITE_DONE: i32 = 101;

/// The type tag of a column that holds an integer.
pub const SQLITE_INTEGER: i32 = 1;

/// The type tag of a column that holds a real.
pub const SQLITE_FLOAT: i32 = 2;

/// The type tag of a column that holds text.
pub const SQLITE_TEXT: i32 = 3;

/// The type tag of a column that holds a blob.
pub const SQLITE_BLOB: i32 = 4;

/// The type tag of a column that holds nothing.
pub const SQLITE_NULL: i32 = 5;

/// Whether a result code is one of the three outcomes that are not errors.
pub open spec fn is_success(code: i32) -> bool {
    code == SQLITE_OK || code == SQLITE_ROW || code == SQLITE_DONE
}

/// Tells the three outcomes that are not errors from every other code.
pub fn succeeded(code: i32) -> (r: bool)
    ensures
        r == is_success(code),
{
    code == SQLITE_OK || code == SQLITE_ROW || code == SQLITE_DONE
}

} // verus!
