//! The catalog of synthetic files that the workload is run on.

use crate::content::{all_printable, printable_content};
use vstd::prelude::*;

verus! {

/// A synthetic file: its name in the working directory and the number of
/// characters it is filled with.
#[derive(Debug)]
pub struct TestFile {
    pub name: String,
    pub size_bytes: usize,
}

/// The names of the files of `catalog`, in catalog order.
pub open spec fn names_of(catalog: Seq<TestFile>) -> Seq<Seq<char>> {
    Seq::new(catalog.len(), |i: int| catalog[i].name@)
}

/// The sizes of the files of `catalog`, in catalog order.
pub open spec fn sizes_of(catalog: Seq<TestFile>) -> Seq<usize> {
    Seq::new(catalog.len(), |i: int| catalog[i].size_bytes)
}

/// The names of the standard catalog.
pub open spec fn standard_names() -> Seq<Seq<char>> {
    seq!["small.txt"@, "medium.txt"@, "large.txt"@, "huge.txt"@]
}

/// The sizes of the standard catalog: 1 KB, 10 KB, 100 KB and 1000 KB.
pub open spec fn standard_sizes() -> Seq<usize> {
    seq![1024usize, 10240usize, 102400usize, 1024000usize]
}

impl TestFile {
    /// Fresh content for the file: as many characters as its size says,
    /// each of them printable ASCII.
    pub fn content(&self) -> (content: String)
        ensures
            content@.len() == self.size_bytes,
            all_printable(content@),
    {
        printable_content(self.size_bytes)
    }
}

/// The standard catalog of four files.
pub fn standard_catalog() -> (catalog: Vec<TestFile>)
    ensures
        names_of(catalog@) == standard_names(),
        sizes_of(catalog@) == standard_sizes(),
{
    let mut catalog: Vec<TestFile> = Vec::new();
    catalog.push(TestFile { name: "small.txt".to_owned(), size_bytes: 1024 });
    catalog.push(TestFile { name: "medium.txt".to_owned(), size_bytes: 10240 });
    catalog.push(TestFile { name: "large.txt".to_owned(), size_bytes: 102400 });
    catalog.push(TestFile { name: "huge.txt".to_owned(), size_bytes: 1024000 });
    assert(names_of(catalog@) =~= standard_names());
    assert(sizes_of(catalog@) =~= standard_sizes());
    catalog
}

/// The names of the files of `catalog`, in catalog order.
pub fn file_names(catalog: &Vec<TestFile>) -> (names: Vec<String>)
    ensures
        names@.len() == catalog@.len(),
        forall|i: int| 0 <= i < names@.len() ==> (#[trigger] names@[i])@ == catalog@[i].name@,
{
    let mut names: Vec<String> = Vec::new();
    let mut at: usize = 0;
    while at < catalog.len()
        invariant
            at <= catalog@.len(),
            names@.len() == at,
            forall|i: int| 0 <= i < at ==> (#[trigger] names@[i])@ == catalog@[i].name@,
        decreases catalog@.len() - at,
    {
        names.push(catalog[at].name.clone());
        at += 1;
    }
    names
}

} // verus!
