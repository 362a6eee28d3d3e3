//! Where the node keeps its data.

use vstd::prelude::*;

verus! {

/// The name of the database directory under the base directory.
pub const DATABASE_DIR: &'static str = "database";

// data directories
#[derive(Debug, PartialEq)]
pub struct Directories {
    /// Base dir
    pub base: String,
    /// Database dir
    pub db: String,
}

/// The path of `name` under the directory `base`: `name` alone where
/// `base` is empty, else `base`, a `/` where it does not end in one, and
/// `name`.
pub open spec fn joined(base: Seq<char>, name: Seq<char>) -> Seq<char> {
    if base.len() == 0 {
        name
    } else if base.last() == '/' {
        base + name
    } else {
        base + "/"@ + name
    }
}

impl Directories {
    /// The directories under `base_path`.
    pub fn new(base_path: String) -> (dirs: Self)
        ensures
            dirs.base == base_path,
            dirs.db@ == joined(base_path@, DATABASE_DIR@),
    {
        let len = base_path.as_str().unicode_len();
        let mut db = base_path.clone();
        if len > 0 && base_path.as_str().get_char(len - 1) != '/' {
            db.append("/");
        }
        db.append(DATABASE_DIR);
        proof {
            reveal_strlit("/");
            assert(db@ =~= joined(base_path@, DATABASE_DIR@));
        }
        Directories { db, base: base_path }
    }
}

} // verus!
