use vstd::prelude::*;

use crate::images::path_views;

verus! {

/// The command line: paths to show, and whether directories are listed
/// recursively and logging is verbose.
pub struct CmdLine {
    pub files: Option<Vec<String>>,
    pub recursive: bool,
    pub verbose: bool,
}

/// The directory listing that file discovery needs.
pub enum Listing {
    /// The working directory.
    CurrentDir,
    /// The directory given as the single argument.
    Dir(String),
    /// The directory that holds the file given as the single argument.
    ParentOf(String),
    /// None: the arguments are taken as they are.
    Nothing,
}

/// Keeps the first occurrence of each element, in order.
pub open spec fn dedup(s: Seq<Seq<char>>) -> Seq<Seq<char>>
    decreases s.len(),
{
    if s.len() == 0 {
        s
    } else {
        let d = dedup(s.drop_last());
        if d.contains(s.last()) {
            d
        } else {
            d.push(s.last())
        }
    }
}

/// The deduplicated sequence holds no element twice, holds exactly the
/// elements of the original, and starts with the original's first element.
pub proof fn lemma_dedup_distinct(s: Seq<Seq<char>>)
    ensures
        dedup(s).no_duplicates(),
        forall|x: Seq<char>| dedup(s).contains(x) <==> s.contains(x),
        s.len() > 0 ==> dedup(s).len() > 0 && dedup(s)[0] == s[0],
    decreases s.len(),
{
    if s.len() > 0 {
        let t = s.drop_last();
        lemma_dedup_distinct(t);
        let d = dedup(t);
        assert(s =~= t.push(s.last()));
        assert forall|x: Seq<char>| dedup(s).contains(x) <==> s.contains(x) by {
            lemma_push_contains(t, s.last(), x);
            lemma_push_contains(d, s.last(), x);
        }
        if !d.contains(s.last()) {
            assert forall|i: int, j: int|
                0 <= i < dedup(s).len() && 0 <= j < dedup(s).len() && i != j implies dedup(s)[i]
                != dedup(s)[j] by {
                if i == d.len() {
                    assert(d.contains(d[j]));
                } else if j == d.len() {
                    assert(d.contains(d[i]));
                }
            }
        }
        if t.len() == 0 {
            assert(d.len() == 0);
            assert(dedup(s) == seq![s.last()]);
        } else {
            assert(t[0] == s[0]);
            if !d.contains(s.last()) {
                assert(d.push(s.last())[0] == d[0]);
            }
        }
    }
}

proof fn lemma_push_contains(t: Seq<Seq<char>>, a: Seq<char>, x: Seq<char>)
    ensures
        t.push(a).contains(x) <==> (t.contains(x) || x == a),
{
    if t.contains(x) {
        let k = choose|k: int| 0 <= k < t.len() && t[k] == x;
        assert(t.push(a)[k] == x);
    }
    if t.push(a).contains(x) && x != a {
        let k = choose|k: int| 0 <= k < t.len() + 1 && t.push(a)[k] == x;
        assert(t[k] == x);
    }
    assert(t.push(a)[t.len() as int] == a);
}

fn contains_path(kept: &Vec<String>, p: &String) -> (r: bool)
    ensures
        r == path_views(kept@).contains(p@),
{
    let ghost kv = path_views(kept@);
    let mut j: usize = 0;
    while j < kept.len()
        invariant
            j <= kept.len(),
            kv == path_views(kept@),
            forall|k: int| 0 <= k < j ==> kv[k] != p@,
        decreases kept.len() - j,
    {
        if kept[j] == *p {
            assert(kv[j as int] == p@);
            return true;
        }
        j = j + 1;
    }
    false
}

fn dedup_paths(v: &Vec<String>) -> (r: Vec<String>)
    ensures
        path_views(r@) == dedup(path_views(v@)),
{
    let ghost pv = path_views(v@);
    let mut out: Vec<String> = Vec::new();
    let mut i: usize = 0;
    while i < v.len()
        invariant
            i <= v.len(),
            pv == path_views(v@),
            path_views(out@) == dedup(pv.subrange(0, i as int)),
        decreases v.len() - i,
    {
        let ghost sub = pv.subrange(0, i + 1);
        assert(sub.drop_last() =~= pv.subrange(0, i as int));
        assert(sub.last() == v@[i as int]@);
        if !contains_path(&out, &v[i]) {
            let ghost before = out@;
            out.push(v[i].clone());
            assert(path_views(out@) =~= path_views(before).push(v@[i as int]@));
        }
        i = i + 1;
    }
    assert(pv.subrange(0, v.len() as int) =~= pv);
    out
}

impl CmdLine {
    /// The single argument, whose kind decides the listing, if there is
    /// exactly one.
    pub fn single_file(&self) -> (r: Option<String>)
        ensures
            match r {
                Some(f) => self.files is Some && self.files->0@.len() == 1 && f@
                    == self.files->0@[0]@,
                None => self.files is None || self.files->0@.len() != 1,
            },
    {
        match &self.files {
            Some(fs) => if fs.len() == 1 {
                Some(fs[0].clone())
            } else {
                None
            },
            None => None,
        }
    }

    /// The listing that discovery needs, given whether the single argument
    /// (if there is one) names a directory.
    pub fn listing(&self, single_is_dir: bool) -> (r: Listing)
        ensures
            match self.files {
                None => r is CurrentDir,
                Some(fs) => if fs@.len() == 1 {
                    if single_is_dir {
                        r is Dir && r->Dir_0@ == fs@[0]@
                    } else {
                        r is ParentOf && r->ParentOf_0@ == fs@[0]@
                    }
                } else {
                    r is Nothing
                },
            },
    {
        match &self.files {
            None => Listing::CurrentDir,
            Some(fs) => if fs.len() == 1 {
                if single_is_dir {
                    Listing::Dir(fs[0].clone())
                } else {
                    Listing::ParentOf(fs[0].clone())
                }
            } else {
                Listing::Nothing
            },
        }
    }

    /// The paths to load: the listing when no argument or a single
    /// directory was given; a single file followed by its siblings, each
    /// path once, in the order first seen; several arguments as they are.
    pub fn get_files(self, single_is_dir: bool, listing: Vec<String>) -> (r: Vec<String>)
        ensures
            match self.files {
                None => r@ == listing@,
                Some(fs) => if fs@.len() == 1 {
                    if single_is_dir {
                        r@ == listing@
                    } else {
                        path_views(r@) == dedup(path_views(fs@ + listing@))
                    }
                } else {
                    r@ == fs@
                },
            },
    {
        match self.files {
            None => listing,
            Some(fs) => if fs.len() == 1 {
                if single_is_dir {
                    listing
                } else {
                    let mut all = fs;
                    let mut rest = listing;
                    all.append(&mut rest);
                    dedup_paths(&all)
                }
            } else {
                fs
            },
        }
    }
}

} // verus!
