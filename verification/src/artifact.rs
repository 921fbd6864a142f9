//! Telling mod files from the other entries of a directory.
//!
//! A mod file is an entry whose extension is `jar`, in lower case. The
//! extension of a file name is what follows its last dot, provided that
//! something stands before that dot: `.jar` is a hidden file without an
//! extension, not a mod file.

use vstd::multiset::Multiset;
use vstd::prelude::*;
use vstd::seq_lib::{lemma_multiset_commutative, to_multiset_build};

verus! {

/// The position of the last dot in `name`, or -1 if it holds none.
pub open spec fn last_dot(name: Seq<char>) -> int
    decreases name.len(),
{
    if name.len() == 0 {
        -1
    } else if name.last() == '.' {
        name.len() - 1
    } else {
        last_dot(name.drop_last())
    }
}

/// The extension of the file name `name`: what follows its last dot. A name
/// without a dot has none, nor has one whose only dot is its first character,
/// nor has the name `..`.
pub open spec fn extension(name: Seq<char>) -> Option<Seq<char>> {
    if last_dot(name) <= 0 || name == seq!['.', '.'] {
        None
    } else {
        Some(name.subrange(last_dot(name) + 1, name.len() as int))
    }
}

/// Whether a file of this name is a mod file.
pub open spec fn is_jar(name: Seq<char>) -> bool {
    extension(name) == Some(seq!['j', 'a', 'r'])
}

/// The mod files of a directory listing, in the listing's order.
pub open spec fn jars(listing: Seq<String>) -> Seq<String> {
    listing.filter(|name: String| is_jar(name@))
}

/// `last_dot` finds a dot, and no dot follows the one it finds.
pub proof fn lemma_last_dot(name: Seq<char>)
    ensures
        -1 <= last_dot(name) < name.len(),
        last_dot(name) >= 0 ==> name[last_dot(name)] == '.',
        forall|i: int| last_dot(name) < i < name.len() ==> name[i] != '.',
    decreases name.len(),
{
    if name.len() > 0 && name.last() != '.' {
        let front = name.drop_last();
        lemma_last_dot(front);
        assert forall|i: int| last_dot(name) < i < name.len() implies name[i] != '.' by {
            if i < front.len() {
                assert(name[i] == front[i]);
            }
        }
    }
}

/// A name is that of a mod file exactly if it ends in `.jar` and is longer
/// than those four characters.
pub proof fn lemma_is_jar(name: Seq<char>)
    ensures
        is_jar(name) <==> name.len() > 4 && name.subrange(name.len() - 4, name.len() as int)
            == seq!['.', 'j', 'a', 'r'],
{
    let n = name.len() as int;
    lemma_last_dot(name);
    if is_jar(name) {
        // The extension has three characters, so the last dot stands before them.
        assert(name.subrange(last_dot(name) + 1, n).len() == 3);
        assert(name.subrange(n - 4, n) =~= seq!['.', 'j', 'a', 'r']);
    }
    if n > 4 && name.subrange(n - 4, n) == seq!['.', 'j', 'a', 'r'] {
        // No dot follows the one before `jar`, so that one is the last.
        assert(name.subrange(n - 3, n) =~= seq!['j', 'a', 'r']);
    }
}

/// Whether a directory entry of this file name is a mod file.
pub fn is_artifact(file_name: &str) -> (yes: bool)
    ensures
        yes == is_jar(file_name@),
{
    proof {
        lemma_is_jar(file_name@);
    }
    let len: usize = file_name.unicode_len();
    if len <= 4 {
        return false;
    }
    let ends_in_jar = file_name.get_char(len - 4) == '.' && file_name.get_char(len - 3) == 'j'
        && file_name.get_char(len - 2) == 'a' && file_name.get_char(len - 1) == 'r';
    proof {
        if ends_in_jar {
            assert(file_name@.subrange(len - 4, len as int) =~= seq!['.', 'j', 'a', 'r']);
        }
    }
    ends_in_jar
}

/// The mod files among the entries of a directory, in the order in which the
/// directory listed them.
pub fn jar_files(listing: &Vec<String>) -> (found: Vec<String>)
    ensures
        found@ == jars(listing@),
{
    let mut found: Vec<String> = Vec::new();
    let mut at: usize = 0;
    proof {
        reveal(Seq::filter);
    }
    while at < listing.len()
        invariant
            at <= listing.len(),
            found@ == jars(listing@.take(at as int)),
        decreases listing.len() - at,
    {
        proof {
            assert(listing@.take(at + 1) =~= listing@.take(at as int).push(listing@[at as int]));
            listing@.take(at as int).lemma_filter_push(
                listing@[at as int],
                |name: String| is_jar(name@),
            );
        }
        if is_artifact(listing[at].as_str()) {
            found.push(listing[at].clone());
        }
        at += 1;
    }
    proof {
        assert(listing@.take(at as int) =~= listing@);
    }
    found
}

/// Filtering a sequence and then forgetting the order gives what forgetting
/// the order and then filtering gives.
proof fn lemma_filter_to_multiset(files: Seq<String>, keep: spec_fn(String) -> bool)
    ensures
        files.filter(keep).to_multiset() =~= files.to_multiset().filter(keep),
    decreases files.len(),
{
    broadcast use vstd::multiset::group_multiset_axioms;

    if files.len() == 0 {
        reveal(Seq::filter);
        files.to_multiset_ensures();
        assert(files.to_multiset() =~= Multiset::<String>::empty());
    } else {
        let front = files.drop_last();
        let last = files.last();
        lemma_filter_to_multiset(front, keep);
        assert(files =~= front.push(last));
        front.lemma_filter_push(last, keep);
        to_multiset_build(front, last);
        if keep(last) {
            to_multiset_build(front.filter(keep), last);
        }
    }
}

/// A directory that holds the mod files `mod_files` and the other entries
/// `others` yields exactly the mod files, each as often as it is listed,
/// whatever the others are and in whatever order the directory lists its
/// entries. In particular it yields as many files as there are mod files.
pub proof fn lemma_jars_of_any_listing(
    listing: Seq<String>,
    mod_files: Seq<String>,
    others: Seq<String>,
)
    requires
        forall|i: int| 0 <= i < mod_files.len() ==> is_jar((#[trigger] mod_files[i])@),
        forall|i: int| 0 <= i < others.len() ==> !is_jar((#[trigger] others[i])@),
        listing.to_multiset() == mod_files.to_multiset().add(others.to_multiset()),
    ensures
        jars(listing).to_multiset() == mod_files.to_multiset(),
        jars(listing).len() == mod_files.len(),
{
    broadcast use vstd::multiset::group_multiset_axioms;

    let keep = |name: String| is_jar(name@);
    lemma_filter_to_multiset(listing, keep);
    assert forall|name: String|
        jars(listing).to_multiset().count(name) == mod_files.to_multiset().count(name) by {
        // A name is counted among the mod files only if it is one, and
        // among the others only if it is none.
        mod_files.to_multiset_ensures();
        others.to_multiset_ensures();
    }
    jars(listing).to_multiset_ensures();
    mod_files.to_multiset_ensures();
}

} // verus!
