//! A program and the name of its file.

use vstd::prelude::*;
use vstd::string::StrSliceExecFns;
use vstd::string::StringExecFns;

verus! {

/// A program with the name of the file it came from.
pub struct RomMgr {
    /// The last component of the path of the file.
    pub name: String,
    /// The bytes of the program.
    pub bin: Vec<u8>,
}

/// Where the last component of `path` starts: behind its last `/`, or at the
/// beginning if it has none.
pub open spec fn name_start(path: Seq<char>) -> int
    decreases path.len(),
{
    if path.len() == 0 {
        0
    } else if path.last() == '/' {
        path.len() as int
    } else {
        name_start(path.drop_last())
    }
}

/// The last component of `path`.
pub open spec fn base_name(path: Seq<char>) -> Seq<char> {
    path.subrange(name_start(path), path.len() as int)
}

impl RomMgr {
    /// The program `data` that was read from the file `filename`.
    pub fn from_file(filename: &str, data: Vec<u8>) -> (rom: RomMgr)
        ensures
            rom.name@ == base_name(filename@),
            rom.bin@ == data@,
    {
        let n: usize = filename.unicode_len();
        let mut start: usize = 0;
        let mut k: usize = 0;
        while k < n
            invariant
                n == filename@.len(),
                k <= n,
                start <= k,
                start == name_start(filename@.take(k as int)),
            decreases n - k,
        {
            let c: char = filename.get_char(k);
            assert(filename@.take(k as int + 1).drop_last() == filename@.take(k as int));
            if c == '/' {
                start = k + 1;
            }
            k += 1;
        }
        assert(filename@.take(n as int) == filename@);
        let name: String = String::from_str(filename.substring_char(start, n));
        RomMgr { name, bin: data }
    }
}

} // verus!
