//! The structured shapes of the remote repository's listing API, and the
//! selection logic applied to them.
//!
//! The transport itself (HTTP, headers, rate-limit inspection) lives with
//! the caller; this module holds the response shapes and the verified
//! filters: which tree entries are files, and which identifiers name JSON
//! documents.

use vstd::prelude::*;

use crate::layout::view_strings;

verus! {

/// One entry of a repository tree listing.
pub struct TreeObject {
    pub path: String,
    pub mode: String,
    pub type_: String,
    pub size: Option<usize>,
    pub sha: String,
    pub url: String,
}

/// Specification-level model of a `TreeObject`.
pub ghost struct TreeObjectV {
    pub path: Seq<char>,
    pub mode: Seq<char>,
    pub type_: Seq<char>,
    pub size: Option<usize>,
    pub sha: Seq<char>,
    pub url: Seq<char>,
}

impl View for TreeObject {
    type V = TreeObjectV;

    open spec fn view(&self) -> TreeObjectV {
        TreeObjectV {
            path: self.path@,
            mode: self.mode@,
            type_: self.type_@,
            size: self.size,
            sha: self.sha@,
            url: self.url@,
        }
    }
}

/// View of a sequence of tree entries.
pub open spec fn view_tree(v: Seq<TreeObject>) -> Seq<TreeObjectV> {
    v.map_values(|t: TreeObject| t@)
}

/// A repository tree listing.
pub struct TreeResponse {
    pub sha: String,
    pub url: String,
    pub tree: Vec<TreeObject>,
}

/// Specification-level model of a `TreeResponse`.
pub ghost struct TreeResponseV {
    pub sha: Seq<char>,
    pub url: Seq<char>,
    pub tree: Seq<TreeObjectV>,
}

impl View for TreeResponse {
    type V = TreeResponseV;

    open spec fn view(&self) -> TreeResponseV {
        TreeResponseV { sha: self.sha@, url: self.url@, tree: view_tree(self.tree@) }
    }
}

/// The metadata the repository's content endpoint reports for one file.
pub struct GithubFile {
    pub type_: String,
    pub encoding: String,
    pub size: usize,
    pub name: String,
    pub path: String,
    pub content: String,
    pub sha: String,
    pub url: String,
    pub git_url: String,
    pub html_url: String,
    pub download_url: String,
    pub links: Vec<(String, String)>,
}

/// The paths of the file entries — those whose type is "blob" — in listing
/// order.
pub open spec fn blob_paths(tree: Seq<TreeObjectV>) -> Seq<Seq<char>>
    decreases tree.len(),
{
    if tree.len() == 0 {
        Seq::empty()
    } else {
        let rest = blob_paths(tree.drop_last());
        if tree.last().type_ == "blob"@ {
            rest.push(tree.last().path)
        } else {
            rest
        }
    }
}

impl TreeResponse {
    /// The paths of the listing's file entries, in their original order.
    pub fn files(&self) -> (r: Vec<String>)
        ensures
            view_strings(r@) == blob_paths(self@.tree),
    {
        let blob: String = "blob".to_owned();
        let mut r: Vec<String> = Vec::new();
        let mut i: usize = 0;
        while i < self.tree.len()
            invariant
                i <= self.tree@.len(),
                blob@ == "blob"@,
                view_strings(r@) == blob_paths(view_tree(self.tree@.take(i as int))),
            decreases self.tree@.len() - i,
        {
            proof {
                assert(view_tree(self.tree@.take(i + 1 as int)).drop_last() =~= view_tree(
                    self.tree@.take(i as int),
                ));
                assert(view_tree(self.tree@.take(i + 1 as int)).last() == self.tree@[i as int]@);
            }
            if self.tree[i].type_ == blob {
                r.push(self.tree[i].path.clone());
                proof {
                    assert(view_strings(r@) =~= blob_paths(
                        view_tree(self.tree@.take(i + 1 as int)),
                    ));
                }
            } else {
                proof {
                    assert(blob_paths(view_tree(self.tree@.take(i + 1 as int))) == blob_paths(
                        view_tree(self.tree@.take(i as int)),
                    ));
                }
            }
            i += 1;
        }
        proof {
            assert(self.tree@.take(self.tree@.len() as int) =~= self.tree@);
        }
        r
    }
}

/// The characters of `suffix` end the string.
pub open spec fn has_suffix(s: Seq<char>, suffix: Seq<char>) -> bool {
    suffix.len() <= s.len() && s.subrange(s.len() - suffix.len(), s.len() as int) == suffix
}

/// Relies on str::ends_with: true exactly when the string ends with the
/// given suffix.
#[verifier::external_body]
fn ends_with_suffix(s: &String, suffix: &str) -> (r: bool)
    ensures
        r == has_suffix(s@, suffix@),
{
    s.as_str().ends_with(suffix)
}

/// The identifiers that name JSON documents, in their original order.
pub open spec fn json_names(names: Seq<Seq<char>>) -> Seq<Seq<char>>
    decreases names.len(),
{
    if names.len() == 0 {
        Seq::empty()
    } else {
        let rest = json_names(names.drop_last());
        if has_suffix(names.last(), ".json"@) {
            rest.push(names.last())
        } else {
            rest
        }
    }
}

/// Keep the identifiers that name JSON documents — those ending in
/// ".json" — in their original order.
pub fn json_identifiers(names: &Vec<String>) -> (r: Vec<String>)
    ensures
        view_strings(r@) == json_names(view_strings(names@)),
{
    let mut r: Vec<String> = Vec::new();
    let mut i: usize = 0;
    while i < names.len()
        invariant
            i <= names@.len(),
            view_strings(r@) == json_names(view_strings(names@.take(i as int))),
        decreases names@.len() - i,
    {
        proof {
            assert(view_strings(names@.take(i + 1 as int)).drop_last() =~= view_strings(
                names@.take(i as int),
            ));
            assert(view_strings(names@.take(i + 1 as int)).last() == names@[i as int]@);
        }
        if ends_with_suffix(&names[i], ".json") {
            r.push(names[i].clone());
            proof {
                assert(view_strings(r@) =~= json_names(view_strings(names@.take(i + 1 as int))));
            }
        } else {
            proof {
                assert(json_names(view_strings(names@.take(i + 1 as int))) == json_names(
                    view_strings(names@.take(i as int)),
                ));
            }
        }
        i += 1;
    }
    proof {
        assert(names@.take(names@.len() as int) =~= names@);
    }
    r
}

} // verus!
