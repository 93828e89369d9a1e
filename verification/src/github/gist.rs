//! Gists: named files behind an opaque id.

use vstd::prelude::*;
use vstd::string::StringExecFns;
use crate::github::{get_object, Cache, Exchange};

verus! {

/// One file of a gist.
#[derive(Debug)]
pub struct File {
    pub filename: String,
    pub content: String,
}

/// What a `File` holds, with its texts as sequences of characters.
pub struct FileView {
    pub filename: Seq<char>,
    pub content: Seq<char>,
}

impl DeepView for File {
    type V = FileView;

    open spec fn deep_view(&self) -> FileView {
        FileView { filename: self.filename@, content: self.content@ }
    }
}

impl Clone for File {
    fn clone(&self) -> (copy: Self)
        ensures
            copy == *self,
    {
        File { filename: self.filename.clone(), content: self.content.clone() }
    }
}

/// A gist. `files` holds the entries of its file table, each under its key, in
/// the order in which the table is walked.
#[derive(Debug)]
pub struct Gist {
    pub url: String,
    pub id: String,
    pub node_id: String,
    pub html_url: String,
    pub files: Vec<(String, File)>,
}

/// What a `Gist` holds, with its texts as sequences of characters.
pub struct GistView {
    pub url: Seq<char>,
    pub id: Seq<char>,
    pub node_id: Seq<char>,
    pub html_url: Seq<char>,
    pub files: Seq<(Seq<char>, FileView)>,
}

impl DeepView for Gist {
    type V = GistView;

    open spec fn deep_view(&self) -> GistView {
        GistView {
            url: self.url@,
            id: self.id@,
            node_id: self.node_id@,
            html_url: self.html_url@,
            files: self.files.deep_view(),
        }
    }
}

impl Clone for Gist {
    fn clone(&self) -> (copy: Self)
        ensures
            copy.deep_view() == self.deep_view(),
    {
        let mut files: Vec<(String, File)> = Vec::new();
        let mut i: usize = 0;
        while i < self.files.len()
            invariant
                i <= self.files.len(),
                files@ == self.files@.take(i as int),
            decreases self.files.len() - i,
        {
            files.push((self.files[i].0.clone(), self.files[i].1.clone()));
            i += 1;
        }
        let copy = Gist {
            url: self.url.clone(),
            id: self.id.clone(),
            node_id: self.node_id.clone(),
            html_url: self.html_url.clone(),
            files,
        };
        assert(copy.files.deep_view() =~= self.files.deep_view());
        copy
    }
}

impl GistView {
    /// No key occurs twice in the file table.
    pub open spec fn wf(self) -> bool {
        forall|i: int, j: int|
            0 <= i < j < self.files.len() ==> (#[trigger] self.files[i]).0 != (
            #[trigger] self.files[j]).0
    }

    /// The content of the first file, if the gist has a file.
    pub open spec fn first_content(self) -> Option<Seq<char>> {
        if self.files.len() > 0 {
            Some(self.files[0].1.content)
        } else {
            None
        }
    }
}

impl Gist {
    /// Whether no key occurs twice in the file table.
    pub fn is_wf(&self) -> (ok: bool)
        ensures
            ok == self.deep_view().wf(),
    {
        let n = self.files.len();
        let mut j: usize = 0;
        while j < n
            invariant
                j <= n,
                n == self.files.len(),
                forall|a: int, b: int|
                    0 <= a < b < j ==> (#[trigger] self.deep_view().files[a]).0 != (
                    #[trigger] self.deep_view().files[b]).0,
            decreases n - j,
        {
            let mut i: usize = 0;
            while i < j
                invariant
                    i <= j,
                    j < n,
                    n == self.files.len(),
                    forall|a: int|
                        0 <= a < i ==> (#[trigger] self.deep_view().files[a]).0
                            != self.deep_view().files[j as int].0,
                decreases j - i,
            {
                if self.files[i].0 == self.files[j].0 {
                    assert(self.deep_view().files[i as int].0 == self.deep_view().files[j as int].0);
                    return false;
                }
                i += 1;
            }
            j += 1;
        }
        true
    }

    /// The content of the first file, if the gist has a file.
    pub fn first_content(&self) -> (content: Option<String>)
        ensures
            content.deep_view() == self.deep_view().first_content(),
    {
        if self.files.len() > 0 {
            Some(self.files[0].1.content.clone())
        } else {
            None
        }
    }
}

/// Where a gist is found.
pub open spec fn gist_url(id: Seq<char>) -> Seq<char> {
    "https://api.github.com/gists/"@ + id
}

/// Begins the fetch of a gist.
pub fn get_gist(gist_id: &str, token: Option<String>, cache: &Cache<Gist>) -> (exchange: Exchange)
    ensures
        exchange.url@ == gist_url(gist_id@),
        exchange.token == token,
        exchange.prev.deep_view() == cache@.tag_of(gist_url(gist_id@)),
{
    let mut url = String::from_str("https://api.github.com/gists/");
    url.append(gist_id);
    get_object(url.as_str(), token, cache)
}

} // verus!
