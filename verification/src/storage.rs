//! The disk storage layer: where a stored file physically lives, relative to
//! a base location. Two placement strategies are offered: a flat layout
//! (`base/name.extension`), and a time-bucketed layout in which the base
//! holds subdirectories named by sortable unique identifiers and every write
//! goes to the most recently created bucket.
//!
//! This module decides placement — which path a file gets, which bucket a
//! write reuses or creates — as pure, verified computation on names; the
//! actual directory creation, writing and deleting is the caller's, which
//! performs each planned action as stated.

use vstd::prelude::*;
use vstd::string::StrSliceExecFns;
use vstd::string::StringExecFns;

verus! {

/// Why reading a stored file failed.
#[derive(Debug, Clone, Copy, PartialEq, Eq, Structural)]
pub enum StorageError {
    /// The file does not exist.
    NotFound,
    /// Any other I/O failure.
    Io,
}

/// The logical identity of a stored file: a stem name and an extension.
#[derive(Debug)]
pub struct File<'a>(&'a str, &'a str);

/// A stem and extension joined as `name.extension`.
pub open spec fn file_name_spec(name: Seq<char>, ext: Seq<char>) -> Seq<char> {
    name + "."@ + ext
}

impl<'a> File<'a> {
    pub closed spec fn spec_name(self) -> Seq<char> {
        self.0@
    }

    pub closed spec fn spec_extension(self) -> Seq<char> {
        self.1@
    }

    pub fn new(name: &'a str, extension: &'a str) -> (r: Self)
        ensures
            r.spec_name() == name@ && r.spec_extension() == extension@,
    {
        File(name, extension)
    }

    pub fn name(&self) -> (r: &str)
        ensures
            r@ == self.spec_name(),
    {
        self.0
    }

    pub fn extension(&self) -> (r: &str)
        ensures
            r@ == self.spec_extension(),
    {
        self.1
    }

    /// The physical file name, `name.extension`.
    pub fn file_name(&self) -> (r: String)
        ensures
            r@ == file_name_spec(self.spec_name(), self.spec_extension()),
    {
        let mut r = self.0.to_owned();
        r.append(".");
        r.append(self.1);
        r
    }
}

/// The flat placement strategy: every file lives directly under the base
/// directory as `base/name.extension`, and a new file overwrites an existing
/// one of the same name.
#[derive(Debug)]
pub struct DiskStorage {
    pub base_path: String,
}

/// A path under a base directory.
pub open spec fn joined_path(base: Seq<char>, name: Seq<char>) -> Seq<char> {
    base + "/"@ + name
}

impl DiskStorage {
    /// A flat layer over the given base directory. Creating the base
    /// directory (idempotently) is the caller's side of the contract.
    pub fn new(path_str: &str) -> (r: Self)
        ensures
            r.base_path@ == path_str@,
    {
        DiskStorage { base_path: path_str.to_owned() }
    }

    /// The physical path of a file in this layer: `base/name.extension`.
    /// Writing `add_new_file` data and deleting with `delete_file` both
    /// address exactly this path.
    pub fn file_path(&self, file: &File) -> (r: String)
        ensures
            r@ == joined_path(
                self.base_path@,
                file_name_spec(file.spec_name(), file.spec_extension()),
            ),
    {
        let mut r = self.base_path.clone();
        r.append("/");
        r.append(file.name());
        r.append(".");
        r.append(file.extension());
        proof {
            assert(r@ =~= joined_path(
                self.base_path@,
                file_name_spec(file.spec_name(), file.spec_extension()),
            ));
        }
        r
    }
}

/// Whether a character is a lower-case hexadecimal digit.
pub open spec fn is_hex_digit(c: char) -> bool {
    ('0' <= c && c <= '9') || ('a' <= c && c <= 'f')
}

/// The value of a hexadecimal digit (zero for any other character).
pub open spec fn digit_val(c: char) -> nat {
    if '0' <= c && c <= '9' {
        (c as u32 - 48) as nat
    } else if 'a' <= c && c <= 'f' {
        (c as u32 - 87) as nat
    } else {
        0
    }
}

/// The number a big-endian hexadecimal digit string denotes.
pub open spec fn hex_val(s: Seq<char>) -> nat
    decreases s.len(),
{
    if s.len() == 0 {
        0
    } else {
        hex_val(s.drop_last()) * 16 + digit_val(s.last())
    }
}

/// Whether a directory name is a bucket identifier: exactly 32 lower-case
/// hexadecimal digits, the textual form of a 128-bit sortable unique id.
pub open spec fn is_bucket_name(s: Seq<char>) -> bool {
    s.len() == 32 && forall|i: int| 0 <= i < s.len() ==> is_hex_digit(#[trigger] s[i])
}

/// The identifier a directory name denotes, or `None` when the name is not
/// a bucket identifier and the scan discards it.
pub open spec fn bucket_id_of(s: Seq<char>) -> Option<u128> {
    if is_bucket_name(s) {
        Some(hex_val(s) as u128)
    } else {
        None
    }
}

pub open spec fn pow16(n: nat) -> nat
    decreases n,
{
    if n == 0 {
        1
    } else {
        16 * pow16((n - 1) as nat)
    }
}

proof fn lemma_pow16_32()
    ensures
        pow16(32) == 0x100000000000000000000000000000000,
{
    reveal_with_fuel(pow16, 33);
}

proof fn lemma_pow16_mono(a: nat, b: nat)
    requires
        a <= b,
    ensures
        pow16(a) <= pow16(b),
    decreases b,
{
    if a < b {
        lemma_pow16_mono(a, (b - 1) as nat);
        assert(pow16(b) == 16 * pow16((b - 1) as nat));
    }
}

/// A digit string of length `n` denotes a number below `16^n`.
proof fn lemma_hex_val_bound(s: Seq<char>)
    ensures
        hex_val(s) < pow16(s.len()),
    decreases s.len(),
{
    if s.len() > 0 {
        lemma_hex_val_bound(s.drop_last());
        assert(digit_val(s.last()) < 16);
        assert(pow16(s.len()) == 16 * pow16((s.len() - 1) as nat));
    }
}

/// Parses a directory name as a bucket identifier: exactly 32 lower-case
/// hexadecimal digits, read big-endian.
pub fn parse_bucket_name(s: &str) -> (r: Option<u128>)
    ensures
        r == bucket_id_of(s@),
{
    let n = s.unicode_len();
    if n != 32 {
        return None;
    }
    let mut acc: u128 = 0;
    let mut i: usize = 0;
    while i < 32
        invariant
            i <= 32,
            s@.len() == 32,
            forall|j: int| 0 <= j < i ==> is_hex_digit(#[trigger] s@[j]),
            acc == hex_val(s@.take(i as int)),
        decreases 32 - i,
    {
        let c = s.get_char(i);
        let d: u8 = if '0' <= c && c <= '9' {
            (c as u8) - 48
        } else if 'a' <= c && c <= 'f' {
            (c as u8) - 87
        } else {
            assert(!is_hex_digit(s@[i as int]));
            return None;
        };
        assert(d == digit_val(s@[i as int]));
        proof {
            lemma_hex_val_bound(s@.take(i as int));
            lemma_pow16_mono(i as nat, 31);
            lemma_pow16_32();
            assert(pow16(32) == 16 * pow16(31));
        }
        acc = acc * 16 + (d as u128);
        proof {
            assert(s@.take(i + 1 as int).drop_last() =~= s@.take(i as int));
            assert(s@.take(i + 1 as int).last() == s@[i as int]);
        }
        i += 1;
    }
    proof {
        assert(s@.take(32) =~= s@);
    }
    Some(acc)
}

/// One bucket: a subdirectory of the base, whose name denotes its id.
#[derive(Debug)]
pub struct Bucket {
    pub id: u128,
    pub name: String,
}

/// Whether some kept bucket carries this directory name.
pub open spec fn holds_name(buckets: Seq<Bucket>, name: Seq<char>) -> bool {
    exists|k: int| 0 <= k < buckets.len() && #[trigger] buckets[k].name@ == name
}

/// Whether this directory name was among the scanned entries.
pub open spec fn name_from_scan(names: Seq<String>, name: Seq<char>) -> bool {
    exists|j: int| 0 <= j < names.len() && #[trigger] names[j]@ == name
}

/// Buckets in ascending id order.
pub open spec fn sorted_buckets(s: Seq<Bucket>) -> bool {
    forall|i: int, j: int| 0 <= i < j < s.len() ==> #[trigger] s[i].id <= #[trigger] s[j].id
}

/// Every kept bucket's name denotes exactly its id.
pub open spec fn buckets_well_formed(s: Seq<Bucket>) -> bool {
    forall|k: int| 0 <= k < s.len() ==> bucket_id_of(#[trigger] s[k].name@) == Some(s[k].id)
}

/// The id of the bucket a write goes to: the maximum id, or the fresh id
/// when no bucket exists yet.
pub open spec fn chosen_bucket_id(ids: Seq<u128>, fresh: u128) -> u128 {
    if ids.len() == 0 {
        fresh
    } else {
        ids.last()
    }
}

/// The bucket ids after a write: unchanged, except that the very first
/// write creates the fresh bucket.
pub open spec fn bucket_ids_after(ids: Seq<u128>, fresh: u128) -> Seq<u128> {
    if ids.len() == 0 {
        seq![fresh]
    } else {
        ids
    }
}

/// The physical path of a file inside a bucket: `base/bucket/file.extension`.
pub open spec fn bucket_file_path(
    base: Seq<char>,
    bucket: Seq<char>,
    file: Seq<char>,
    ext: Seq<char>,
) -> Seq<char> {
    base + "/"@ + bucket + "/"@ + file + "."@ + ext
}

/// The planned outcome of one bucketed write: whether a bucket directory
/// must first be created, which bucket receives the file, and the file's
/// full path.
#[derive(Debug)]
pub struct AddFilePlan {
    pub create_bucket: bool,
    pub bucket_name: String,
    pub path: String,
}

/// The bucketed placement strategy: the base directory holds buckets named
/// by sortable unique ids; a write reuses the most recently created bucket,
/// creating the first bucket on the first write. There is no rotation
/// policy: after the first write the same bucket is reused indefinitely.
#[derive(Debug)]
pub struct BucketedStorage {
    base_path: String,
    buckets: Vec<Bucket>,
}

proof fn lemma_sorted_insert(s: Seq<Bucket>, p: int, b: Bucket)
    requires
        0 <= p <= s.len(),
        sorted_buckets(s),
        forall|k: int| 0 <= k < p ==> #[trigger] s[k].id <= b.id,
        forall|k: int| p <= k < s.len() ==> b.id <= #[trigger] s[k].id,
    ensures
        sorted_buckets(s.insert(p, b)),
{
    s.insert_ensures(p, b);
    let t = s.insert(p, b);
    assert forall|i: int, j: int| 0 <= i < j < t.len() implies #[trigger] t[i].id
        <= #[trigger] t[j].id by {
        if i < p {
            assert(t[i] == s[i]);
        } else if i > p {
            assert(t[i] == s[i - 1]);
        }
        if j < p {
            assert(t[j] == s[j]);
        } else if j > p {
            assert(t[j] == s[j - 1]);
        }
    }
}

impl BucketedStorage {
    /// The buckets the layer knows, in ascending id order.
    pub closed spec fn spec_buckets(&self) -> Seq<Bucket> {
        self.buckets@
    }

    /// The ids of the buckets the layer knows.
    pub open spec fn spec_ids(&self) -> Seq<u128> {
        self.spec_buckets().map_values(|b: Bucket| b.id)
    }

    /// The base directory the layer was built over.
    pub closed spec fn spec_base_path(&self) -> Seq<char> {
        self.base_path@
    }

    /// The layer's invariant: buckets are kept sorted by id, and each one's
    /// name denotes its id.
    pub open spec fn wf(&self) -> bool {
        sorted_buckets(self.spec_buckets()) && buckets_well_formed(self.spec_buckets())
    }

    pub fn base_path(&self) -> (r: &str)
        ensures
            r@ == self.spec_base_path(),
    {
        self.base_path.as_str()
    }

    /// The number of buckets the layer knows.
    pub fn bucket_count(&self) -> (r: usize)
        ensures
            r == self.spec_buckets().len(),
    {
        self.buckets.len()
    }

    /// Builds the layer from a scan of the base directory: each entry name
    /// that parses as a bucket id is kept, every other entry is discarded,
    /// and the kept buckets are held sorted by id.
    pub fn from_scan(base: String, names: &Vec<String>) -> (r: Self)
        ensures
            r.wf(),
            r.spec_base_path() == base@,
            forall|k: int| 0 <= k < r.spec_buckets().len() ==> name_from_scan(
                names@,
                #[trigger] r.spec_buckets()[k].name@,
            ),
            forall|j: int|
                0 <= j < names@.len() && bucket_id_of(#[trigger] names@[j]@) is Some
                    ==> holds_name(r.spec_buckets(), names@[j]@),
    {
        let mut buckets: Vec<Bucket> = Vec::new();
        let n = names.len();
        let mut j: usize = 0;
        while j < n
            invariant
                j <= n,
                n == names@.len(),
                sorted_buckets(buckets@),
                buckets_well_formed(buckets@),
                forall|k: int| 0 <= k < buckets@.len() ==> name_from_scan(
                    names@,
                    #[trigger] buckets@[k].name@,
                ),
                forall|j2: int|
                    0 <= j2 < j && bucket_id_of(#[trigger] names@[j2]@) is Some ==> holds_name(
                        buckets@,
                        names@[j2]@,
                    ),
            decreases n - j,
        {
            let name = &names[j];
            if let Some(id) = parse_bucket_name(name.as_str()) {
                let ghost old_vec = buckets@;
                let mut p: usize = 0;
                while p < buckets.len() && buckets[p].id <= id
                    invariant
                        p <= buckets@.len(),
                        buckets@ == old_vec,
                        forall|k: int| 0 <= k < p ==> #[trigger] buckets@[k].id <= id,
                    decreases buckets@.len() - p,
                {
                    p += 1;
                }
                let b = Bucket { id, name: name.clone() };
                proof {
                    assert forall|k: int| p <= k < old_vec.len() implies id
                        <= #[trigger] old_vec[k].id by {
                        assert(old_vec[p as int].id <= old_vec[k].id);
                    }
                    lemma_sorted_insert(old_vec, p as int, b);
                    old_vec.insert_ensures(p as int, b);
                }
                buckets.insert(p, b);
                proof {
                    assert(buckets@ == old_vec.insert(p as int, b));
                    assert forall|k: int| 0 <= k < buckets@.len() implies name_from_scan(
                        names@,
                        #[trigger] buckets@[k].name@,
                    ) by {
                        if k == p {
                            assert(names@[j as int]@ == buckets@[k].name@);
                        } else if k < p {
                            assert(buckets@[k] == old_vec[k]);
                        } else {
                            assert(buckets@[k] == old_vec[k - 1]);
                        }
                    }
                    assert forall|j2: int|
                        0 <= j2 < j + 1 && bucket_id_of(#[trigger] names@[j2]@) is Some
                            implies holds_name(buckets@, names@[j2]@) by {
                        if j2 == j {
                            assert(buckets@[p as int].name@ == names@[j2]@);
                        } else {
                            let k = choose|k: int|
                                0 <= k < old_vec.len() && #[trigger] old_vec[k].name@
                                    == names@[j2]@;
                            if k < p {
                                assert(buckets@[k].name@ == names@[j2]@);
                            } else {
                                assert(buckets@[k + 1].name@ == names@[j2]@);
                            }
                        }
                    }
                }
            }
            j += 1;
        }
        let ghost final_bs = buckets@;
        let r = BucketedStorage { base_path: base, buckets };
        proof {
            assert(r.spec_buckets() == final_bs);
        }
        r
    }

    /// Plans one write. The caller supplies a freshly generated unique id as
    /// the name of the bucket to create if none exists yet, and the fresh
    /// file name; it then performs the plan: create the bucket directory if
    /// asked, and write the data at the returned path. The chosen bucket is
    /// the one with the maximum id.
    pub fn add_file_plan(
        &mut self,
        fresh_bucket_name: &str,
        file_name: &str,
        extension: &str,
    ) -> (r: AddFilePlan)
        requires
            old(self).wf(),
            bucket_id_of(fresh_bucket_name@) is Some,
        ensures
            final(self).wf(),
            final(self).spec_base_path() == old(self).spec_base_path(),
            final(self).spec_ids() == bucket_ids_after(
                old(self).spec_ids(),
                bucket_id_of(fresh_bucket_name@)->0,
            ),
            r.create_bucket == (old(self).spec_buckets().len() == 0),
            r.bucket_name@ == (if old(self).spec_buckets().len() == 0 {
                fresh_bucket_name@
            } else {
                old(self).spec_buckets().last().name@
            }),
            bucket_id_of(r.bucket_name@) == Some(
                chosen_bucket_id(old(self).spec_ids(), bucket_id_of(fresh_bucket_name@)->0),
            ),
            forall|k: int| 0 <= k < old(self).spec_ids().len() ==> #[trigger] old(
                self,
            ).spec_ids()[k] <= chosen_bucket_id(
                old(self).spec_ids(),
                bucket_id_of(fresh_bucket_name@)->0,
            ),
            r.path@ == bucket_file_path(
                final(self).spec_base_path(),
                r.bucket_name@,
                file_name@,
                extension@,
            ),
    {
        let create_bucket = self.buckets.len() == 0;
        let bucket_name: String;
        if create_bucket {
            let id = parse_bucket_name(fresh_bucket_name).unwrap();
            let b = Bucket { id, name: fresh_bucket_name.to_owned() };
            self.buckets.push(b);
            bucket_name = fresh_bucket_name.to_owned();
            proof {
                assert(self.spec_ids() =~= bucket_ids_after(
                    old(self).spec_ids(),
                    bucket_id_of(fresh_bucket_name@)->0,
                ));
            }
        } else {
            let last = self.buckets.len() - 1;
            bucket_name = self.buckets[last].name.clone();
            proof {
                assert(self.spec_ids() =~= bucket_ids_after(
                    old(self).spec_ids(),
                    bucket_id_of(fresh_bucket_name@)->0,
                ));
                assert(old(self).spec_ids().last() == old(self).spec_buckets().last().id);
                assert forall|k: int| 0 <= k < old(self).spec_ids().len() implies #[trigger] old(
                    self,
                ).spec_ids()[k] <= chosen_bucket_id(
                    old(self).spec_ids(),
                    bucket_id_of(fresh_bucket_name@)->0,
                ) by {
                    assert(old(self).spec_ids()[k] == old(self).spec_buckets()[k].id);
                }
            }
        }
        let mut path = self.base_path.clone();
        path.append("/");
        path.append(bucket_name.as_str());
        path.append("/");
        path.append(file_name);
        path.append(".");
        path.append(extension);
        proof {
            assert(path@ =~= bucket_file_path(
                self.spec_base_path(),
                bucket_name@,
                file_name@,
                extension@,
            ));
        }
        AddFilePlan { create_bucket, bucket_name, path }
    }
}

/// The bucket policy over the lifetime of an initially empty layer: the
/// first write creates exactly one bucket and places its file there; any
/// later write against that single bucket reuses it and creates none.
pub proof fn lemma_bucket_create_then_reuse(id1: u128, id2: u128)
    ensures
        chosen_bucket_id(Seq::<u128>::empty(), id1) == id1,
        bucket_ids_after(Seq::<u128>::empty(), id1) =~= seq![id1],
        chosen_bucket_id(bucket_ids_after(Seq::<u128>::empty(), id1), id2) == id1,
        bucket_ids_after(bucket_ids_after(Seq::<u128>::empty(), id1), id2) =~= seq![id1],
{
    assert(bucket_ids_after(Seq::<u128>::empty(), id1).last() == id1);
}

} // verus!
