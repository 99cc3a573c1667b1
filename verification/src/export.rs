//! CSV export: the exact bytes written to the file the user picked. The
//! save dialog and the file write live outside this crate.

use vstd::prelude::*;
use vstd::string::{StrSliceExecFns, StringSliceAdditionalSpecFns};

verus! {

/// The file starts with the UTF-8 byte-order mark, so that spreadsheet
/// applications read the data as UTF-8, followed by the data itself.
pub open spec fn csv_file_contents(data: Seq<u8>) -> Seq<u8> {
    seq![0xefu8, 0xbbu8, 0xbfu8] + data
}

/// The bytes to write for a CSV export of `data`.
pub fn csv_file_bytes(data: &str) -> (r: Vec<u8>)
    ensures
        r@ == csv_file_contents(data.spec_bytes()),
{
    let mut r: Vec<u8> = Vec::new();
    r.push(0xef);
    r.push(0xbb);
    r.push(0xbf);
    let mut body = data.as_bytes_vec();
    r.append(&mut body);
    proof {
        assert(r@ =~= csv_file_contents(data.spec_bytes()));
    }
    r
}

} // verus!
