//! The files of a shard, as a query sees them.

use std::sync::Arc;
use vstd::prelude::*;
use vstd::relations::{sorted_by, total_ordering};
use vstd::seq_lib::lemma_sorted_unique;

verus! {

/// `Arc::clone`: another pointer to the same value.
#[verifier::external_body]
fn share<T>(shared: &Arc<T>) -> (r: Arc<T>)
    ensures
        r == *shared,
{
    Arc::clone(shared)
}

/// What the object store knows of a file.
#[derive(Debug, Clone)]
pub struct ObjectMeta {
    /// Path of the file in the store.
    pub location: String,
    /// When it was last written: whole seconds since the epoch.
    pub last_modified_secs: i64,
    /// When it was last written: nanoseconds within that second.
    pub last_modified_nanos: u32,
    /// Its size in bytes.
    pub size: u64,
    /// Its entity tag, if the store keeps one.
    pub e_tag: Option<String>,
    /// Its version, if the store keeps one.
    pub version: Option<String>,
}

/// A file and where its rows stand in the shard.
#[derive(Debug, Clone)]
pub struct CustomFileMeta {
    row_group_row_counts: Arc<Vec<i64>>,
    row_base: Arc<i64>,
    object_meta: Arc<ObjectMeta>,
}

impl CustomFileMeta {
    /// Rows of each row group.
    pub closed spec fn counts(self) -> Seq<i64> {
        self.row_group_row_counts@
    }

    /// Number of the file's first row in the shard.
    pub closed spec fn base(self) -> i64 {
        *self.row_base
    }

    /// The file in the object store.
    pub closed spec fn object(self) -> ObjectMeta {
        *self.object_meta
    }

    /// Describes a file.
    pub fn new(row_group_row_counts: Vec<i64>, row_base: i64, object_meta: ObjectMeta) -> (r: Self)
        ensures
            r.counts() == row_group_row_counts@,
            r.base() == row_base,
            r.object() == object_meta,
    {
        let row_group_row_counts = Arc::new(row_group_row_counts);
        let row_base: Arc<i64> = Arc::new(row_base);
        let object_meta = Arc::new(object_meta);
        CustomFileMeta { row_group_row_counts, row_base, object_meta }
    }

    /// Rows of each row group.
    pub fn row_group_row_counts(&self) -> (r: Arc<Vec<i64>>)
        ensures
            r@ == self.counts(),
    {
        share(&self.row_group_row_counts)
    }

    /// Number of the file's first row in the shard.
    pub fn row_base(&self) -> (r: Arc<i64>)
        ensures
            *r == self.base(),
    {
        share(&self.row_base)
    }

    /// The file in the object store.
    pub fn object_meta(&self) -> (r: Arc<ObjectMeta>)
        ensures
            *r == self.object(),
    {
        share(&self.object_meta)
    }
}

/// Where the files of a table are: the address of a file or a directory, and a pattern that the
/// files' names match, if there is one.
#[derive(Debug)]
pub struct TableAddress {
    /// The address.
    pub url: String,
    /// The pattern.
    pub glob: Option<String>,
}

/// The text of a string that may be missing.
pub open spec fn text_of(s: Option<String>) -> Option<Seq<char>> {
    match s {
        Some(text) => Some(text@),
        None => None,
    }
}

impl View for TableAddress {
    type V = (Seq<char>, Option<Seq<char>>);

    open spec fn view(&self) -> (Seq<char>, Option<Seq<char>>) {
        (self.url@, text_of(self.glob))
    }
}

impl Clone for TableAddress {
    fn clone(&self) -> (r: Self)
        ensures
            r@ == self@,
    {
        let glob = match &self.glob {
            Some(text) => Some(text.clone()),
            None => None,
        };
        TableAddress { url: self.url.clone(), glob }
    }
}

/// The table address and the files of a shard.
#[derive(Debug)]
pub struct ShardView {
    table_path: TableAddress,
    files_metadata: Arc<Vec<CustomFileMeta>>,
}

impl ShardView {
    /// The table address.
    pub closed spec fn path(self) -> (Seq<char>, Option<Seq<char>>) {
        self.table_path@
    }

    /// The files.
    pub closed spec fn files(self) -> Seq<CustomFileMeta> {
        self.files_metadata@
    }

    /// A shard with the given table address and files.
    pub fn new(table_path: TableAddress, files_metadata: Vec<CustomFileMeta>) -> (r: Self)
        ensures
            r.path() == table_path@,
            r.files() == files_metadata@,
    {
        let files_metadata = Arc::new(files_metadata);
        ShardView { table_path, files_metadata }
    }

    /// The table address.
    pub fn table_path(&self) -> (r: TableAddress)
        ensures
            r@ == self.path(),
    {
        self.table_path.clone()
    }

    /// The files.
    pub fn files_metadata(&self) -> (r: Arc<Vec<CustomFileMeta>>)
        ensures
            r@ == self.files(),
    {
        share(&self.files_metadata)
    }
}

/// Size and row count of a file.
#[derive(Debug, Clone, Copy, PartialEq, Eq, Structural)]
pub struct FileStats {
    /// Total file size in bytes.
    pub size: u64,
    /// Total number of rows in the file.
    pub num_rows: i64,
}

impl FileStats {
    /// Size and row count of a file.
    pub fn new(size: u64, num_rows: i64) -> (r: Self)
        ensures
            r.size == size,
            r.num_rows == num_rows,
    {
        FileStats { size, num_rows }
    }

    /// Total file size in bytes.
    pub fn size(&self) -> (r: u64)
        ensures
            r == self.size,
    {
        self.size
    }

    /// Total number of rows in the file.
    pub fn num_rows(&self) -> (r: i64)
        ensures
            r == self.num_rows,
    {
        self.num_rows
    }
}

/// The texts of a list of strings.
pub open spec fn texts(strings: Seq<String>) -> Seq<Seq<char>> {
    strings.map_values(|s: String| s@)
}

/// `a` comes before `b`, or is the same, in the order of their characters' code points.
pub open spec fn text_le(a: Seq<char>, b: Seq<char>) -> bool
    decreases a.len(),
{
    if a.len() == 0 {
        true
    } else if b.len() == 0 {
        false
    } else if a[0] == b[0] {
        text_le(a.drop_first(), b.drop_first())
    } else {
        a[0] < b[0]
    }
}

/// The order of texts.
pub open spec fn text_order() -> spec_fn(Seq<char>, Seq<char>) -> bool {
    |a: Seq<char>, b: Seq<char>| text_le(a, b)
}

/// `slice::sort` on strings: puts them in ascending order, which for strings is that of their code
/// points, and neither adds nor drops any.
#[verifier::external_body]
fn sort_strings(strings: &mut Vec<String>)
    ensures
        sorted_by(texts(final(strings)@), text_order()),
        texts(final(strings)@).to_multiset() == texts(old(strings)@).to_multiset(),
{
    strings.sort()
}

/// Puts the files of a shard in the order of their names, whose last part counts up from one
/// generation to the next.
pub fn ordered_files(files: Vec<String>) -> (r: Vec<String>)
    ensures
        sorted_by(texts(r@), text_order()),
        texts(r@).to_multiset() == texts(files@).to_multiset(),
{
    let mut files = files;
    sort_strings(&mut files);
    files
}

proof fn lemma_text_le_reflexive(a: Seq<char>)
    ensures
        text_le(a, a),
    decreases a.len(),
{
    if a.len() > 0 {
        lemma_text_le_reflexive(a.drop_first());
    }
}

proof fn lemma_text_le_antisymmetric(a: Seq<char>, b: Seq<char>)
    requires
        text_le(a, b),
        text_le(b, a),
    ensures
        a == b,
    decreases a.len(),
{
    if a.len() > 0 && b.len() > 0 {
        lemma_text_le_antisymmetric(a.drop_first(), b.drop_first());
        assert(a =~= seq![a[0]] + a.drop_first());
        assert(b =~= seq![b[0]] + b.drop_first());
    } else {
        assert(a =~= b);
    }
}

proof fn lemma_text_le_transitive(a: Seq<char>, b: Seq<char>, c: Seq<char>)
    requires
        text_le(a, b),
        text_le(b, c),
    ensures
        text_le(a, c),
    decreases a.len(),
{
    if a.len() > 0 && b.len() > 0 && c.len() > 0 && a[0] == b[0] && b[0] == c[0] {
        lemma_text_le_transitive(a.drop_first(), b.drop_first(), c.drop_first());
    }
}

proof fn lemma_text_le_total(a: Seq<char>, b: Seq<char>)
    ensures
        text_le(a, b) || text_le(b, a),
    decreases a.len(),
{
    if a.len() > 0 && b.len() > 0 && a[0] == b[0] {
        lemma_text_le_total(a.drop_first(), b.drop_first());
    }
}

/// The order of texts is a total order.
pub proof fn law_text_order_is_total()
    ensures
        total_ordering(text_order()),
{
    let order = text_order();
    assert forall|a: Seq<char>| #[trigger] order(a, a) by {
        lemma_text_le_reflexive(a);
    }
    assert forall|a: Seq<char>, b: Seq<char>| #[trigger] order(a, b) && #[trigger] order(
        b,
        a,
    ) implies a == b by {
        lemma_text_le_antisymmetric(a, b);
    }
    assert forall|a: Seq<char>, b: Seq<char>, c: Seq<char>| #[trigger] order(a, b)
        && #[trigger] order(b, c) implies order(a, c) by {
        lemma_text_le_transitive(a, b, c);
    }
    assert forall|a: Seq<char>, b: Seq<char>| #[trigger] order(a, b) || #[trigger] order(b, a) by {
        lemma_text_le_total(a, b);
    }
}

/// The order of a shard's files depends on their names alone, not on the order in which they were
/// handed over.
pub proof fn law_file_order_is_determined(
    files: Seq<Seq<char>>,
    a: Seq<Seq<char>>,
    b: Seq<Seq<char>>,
)
    requires
        sorted_by(a, text_order()),
        sorted_by(b, text_order()),
        a.to_multiset() == files.to_multiset(),
        b.to_multiset() == files.to_multiset(),
    ensures
        a == b,
{
    law_text_order_is_total();
    lemma_sorted_unique(a, b, text_order());
}

} // verus!
