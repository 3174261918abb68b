//! Directory listing entries of the static file server.
//!
//! Listings show directories first, then plain entries, each group in
//! name order; the comparisons below carry exactly that rule.

use core::cmp::Ordering;
use vstd::prelude::*;
use vstd::string::StringExecFns;

verus! {

/// Lexicographic order of two character sequences, by scalar value.
pub open spec fn spec_str_cmp(a: Seq<char>, b: Seq<char>) -> Ordering
    decreases a.len(),
{
    if a.len() == 0 && b.len() == 0 {
        Ordering::Equal
    } else if a.len() == 0 {
        Ordering::Less
    } else if b.len() == 0 {
        Ordering::Greater
    } else if (a[0] as u32) < (b[0] as u32) {
        Ordering::Less
    } else if (a[0] as u32) > (b[0] as u32) {
        Ordering::Greater
    } else {
        spec_str_cmp(a.drop_first(), b.drop_first())
    }
}

/// Compares two strings lexicographically by scalar value.
pub fn str_cmp(a: &str, b: &str) -> (r: Ordering)
    ensures
        r == spec_str_cmp(a@, b@),
{
    let na = a.unicode_len();
    let nb = b.unicode_len();
    let mut i: usize = 0;
    proof {
        assert(a@.skip(0) =~= a@);
        assert(b@.skip(0) =~= b@);
    }
    while i < na && i < nb
        invariant
            0 <= i <= na,
            0 <= i <= nb,
            na == a@.len(),
            nb == b@.len(),
            spec_str_cmp(a@, b@) == spec_str_cmp(
                a@.skip(i as int),
                b@.skip(i as int),
            ),
        decreases na - i,
    {
        let ca = a.get_char(i);
        let cb = b.get_char(i);
        proof {
            assert(a@.skip(i as int)[0] == a@[i as int]);
            assert(b@.skip(i as int)[0] == b@[i as int]);
        }
        if (ca as u32) < (cb as u32) {
            return Ordering::Less;
        }
        if (ca as u32) > (cb as u32) {
            return Ordering::Greater;
        }
        proof {
            assert(a@.skip(i as int).drop_first() =~= a@.skip(i as int + 1));
            assert(b@.skip(i as int).drop_first() =~= b@.skip(i as int + 1));
        }
        i = i + 1;
    }
    proof {
        if i == na {
            assert(a@.skip(i as int) =~= Seq::<char>::empty());
        }
        if i == nb {
            assert(b@.skip(i as int) =~= Seq::<char>::empty());
        }
    }
    if na == nb {
        Ordering::Equal
    } else if na < nb {
        proof {
            assert(b@.skip(i as int).len() > 0);
        }
        Ordering::Less
    } else {
        proof {
            assert(a@.skip(i as int).len() > 0);
        }
        Ordering::Greater
    }
}

/// One entry of a directory listing.
#[derive(Debug)]
pub struct DirectoryEntry {
    /// Name shown in the listing.
    pub display_name: String,
    /// Whether the entry is a directory.
    pub is_dir: bool,
    /// Human-readable size.
    pub size: String,
    /// Path the entry links to.
    pub entry_path: String,
    /// Creation time, already formatted.
    pub created_at: String,
    /// Last-modification time, already formatted.
    pub updated_at: String,
}

impl PartialEq for DirectoryEntry {
    /// Entries are the same listing line when they show the same name.
    fn eq(&self, other: &Self) -> (r: bool) {
        crate::dispatch::str_eq(self.display_name.as_str(), other.display_name.as_str())
    }
}

impl vstd::std_specs::cmp::PartialEqSpecImpl for DirectoryEntry {
    open spec fn obeys_eq_spec() -> bool {
        true
    }

    open spec fn eq_spec(&self, other: &DirectoryEntry) -> bool {
        self.display_name@ == other.display_name@
    }
}

impl PartialOrd for DirectoryEntry {
    /// Directories come first; two directories are ordered by name,
    /// anything else falls behind.
    fn partial_cmp(&self, other: &Self) -> (r: Option<Ordering>) {
        if self.is_dir && other.is_dir {
            return Option::Some(
                str_cmp(self.display_name.as_str(), other.display_name.as_str()),
            );
        }
        if self.is_dir && !other.is_dir {
            return Option::Some(Ordering::Less);
        }
        Option::Some(Ordering::Greater)
    }
}

impl vstd::std_specs::cmp::PartialOrdSpecImpl for DirectoryEntry {
    open spec fn obeys_partial_cmp_spec() -> bool {
        true
    }

    open spec fn partial_cmp_spec(&self, other: &DirectoryEntry) -> Option<Ordering> {
        if self.is_dir && other.is_dir {
            Option::Some(spec_str_cmp(self.display_name@, other.display_name@))
        } else if self.is_dir && !other.is_dir {
            Option::Some(Ordering::Less)
        } else {
            Option::Some(Ordering::Greater)
        }
    }
}

/// A whole directory listing, as handed to the page template.
#[derive(Debug)]
pub struct DirectoryIndex {
    /// The listing's entries.
    pub entries: Vec<DirectoryEntry>,
}

} // verus!
