//! Where images and kernels are found on disk.
use vstd::prelude::*;

use crate::text::{is_prefix, join_path, map_char, path_join, replace_char, starts_with, str_eq, to_owned_string, push_str};

verus! {

/// The directory name of an image: `:` and `/` become `_`.
pub open spec fn sanitized_image_name(name: Seq<char>) -> Seq<char> {
    map_char(map_char(name, ':', '_'), '/', '_')
}

pub fn sanitize_image_name(name: &str) -> (r: String)
    ensures
        r@ == sanitized_image_name(name@),
{
    let a = replace_char(name, ':', '_');
    replace_char(a.as_str(), '/', '_')
}

/// Images fetched from a registry.
pub struct OciImageProvider;

/// Images kept in a local cache directory in the VMIF layout.
#[derive(Debug, Clone)]
pub struct CachedImageProvider {
    pub cache_dir: String,
}

/// The files that make up a cached image.
#[derive(Debug)]
pub struct CachedImagePaths {
    pub image_dir: String,
    pub rootfs: String,
    pub manifest: String,
}

impl CachedImageProvider {
    pub fn with_cache_dir(cache_dir: String) -> (p: Self)
        ensures
            p.cache_dir == cache_dir,
    {
        CachedImageProvider { cache_dir }
    }

    /// Where the cached image `image_name` would be.
    pub fn cached_paths(&self, image_name: &str) -> (p: CachedImagePaths)
        ensures
            p.image_dir@ == join_path(self.cache_dir@, sanitized_image_name(image_name@)),
            p.rootfs@ == join_path(p.image_dir@, "rootfs.sqfs"@),
            p.manifest@ == join_path(p.image_dir@, "vyoma.toml"@),
    {
        let name = sanitize_image_name(image_name);
        let image_dir = path_join(self.cache_dir.as_str(), name.as_str());
        let rootfs = path_join(image_dir.as_str(), "rootfs.sqfs");
        let manifest = path_join(image_dir.as_str(), "vyoma.toml");
        CachedImagePaths { image_dir, rootfs, manifest }
    }

    /// The cached root filesystem of `image_name`, given whether its root
    /// filesystem and manifest files exist: usable only when both do.
    pub fn get_cached_path(&self, image_name: &str, rootfs_exists: bool, manifest_exists: bool) -> (r: Option<String>)
        ensures
            r is Some <==> rootfs_exists && manifest_exists,
            r is Some ==> r->0@ == join_path(
                join_path(self.cache_dir@, sanitized_image_name(image_name@)),
                "rootfs.sqfs"@,
            ),
    {
        let p = self.cached_paths(image_name);
        if rootfs_exists && manifest_exists {
            Some(p.rootfs)
        } else {
            None
        }
    }
}

/// `s` with every leading repetition of `p` removed.
pub open spec fn trim_leading(s: Seq<char>, p: Seq<char>) -> Seq<char>
    decreases s.len(),
{
    if p.len() > 0 && is_prefix(p, s) {
        trim_leading(s.skip(p.len() as int), p)
    } else {
        s
    }
}

fn trim_start_matches(s: &str, p: &str) -> (r: String)
    requires
        p@.len() > 0,
    ensures
        r@ == trim_leading(s@, p@),
{
    let ns = s.unicode_len();
    let np = p.unicode_len();
    let mut i: usize = 0;
    assert(s@.skip(0) =~= s@);
    while np <= ns - i && starts_with(s.substring_char(i, ns), p)
        invariant
            ns == s@.len(),
            np == p@.len(),
            np > 0,
            i <= ns,
            trim_leading(s@.skip(i as int), p@) == trim_leading(s@, p@),
        decreases ns - i,
    {
        assert(s@.subrange(i as int, ns as int) =~= s@.skip(i as int));
        assert(s@.skip(i as int).skip(np as int) =~= s@.skip(i + np));
        i = i + np;
    }
    let rest = s.substring_char(i, ns);
    assert(rest@ =~= s@.skip(i as int));
    assert(s@.subrange(i as int, ns as int) =~= s@.skip(i as int));
    assert(!is_prefix(p@, s@.skip(i as int)));
    to_owned_string(rest)
}

/// How a manifest's kernel reference is looked up in the kernel store.
#[derive(Debug)]
pub enum KernelLookup {
    /// A content hash: the file of that name in the store.
    ByHash { hash: String, path: String },
    /// A tag: a store entry named after it, with or without `.vmlinuz`.
    ByTag { tag: String },
}

/// `data_dir/kernels`.
pub open spec fn kernel_store(data_dir: Seq<char>) -> Seq<char> {
    join_path(data_dir, "kernels"@)
}

/// Classifies a kernel reference: `sha256:` references name a hash (all
/// leading `sha256:` removed), any other names a tag.
pub fn kernel_lookup(kernel_ref: &str, data_dir: &str) -> (k: KernelLookup)
    ensures
        is_prefix("sha256:"@, kernel_ref@) ==> (k matches KernelLookup::ByHash { hash, path } && hash@
            == trim_leading(kernel_ref@, "sha256:"@) && path@ == join_path(kernel_store(data_dir@), hash@)),
        !is_prefix("sha256:"@, kernel_ref@) ==> (k matches KernelLookup::ByTag { tag } && tag@ == kernel_ref@),
{
    proof {
        reveal_strlit("sha256:");
    }
    if starts_with(kernel_ref, "sha256:") {
        let hash = trim_start_matches(kernel_ref, "sha256:");
        let path = kernel_path_by_hash(hash.as_str(), data_dir);
        KernelLookup::ByHash { hash, path }
    } else {
        KernelLookup::ByTag { tag: to_owned_string(kernel_ref) }
    }
}

/// Where the kernel with content hash `hash` is stored.
pub fn kernel_path_by_hash(hash: &str, data_dir: &str) -> (r: String)
    ensures
        r@ == join_path(kernel_store(data_dir@), hash@),
{
    let store = path_join(data_dir, "kernels");
    path_join(store.as_str(), hash)
}

/// The kernel with hash `hash`, given whether its file exists.
pub fn resolve_kernel_by_hash(hash: &str, data_dir: &str, exists: bool) -> (r: Option<String>)
    ensures
        r is Some <==> exists,
        r is Some ==> r->0@ == join_path(kernel_store(data_dir@), hash@),
{
    if exists {
        Some(kernel_path_by_hash(hash, data_dir))
    } else {
        None
    }
}

/// A store entry named `file_name` holds the kernel tagged `tag`.
pub open spec fn tag_matches(file_name: Seq<char>, tag: Seq<char>) -> bool {
    file_name == tag || file_name == tag + ".vmlinuz"@
}

/// The path of the first store entry (in listing order) whose name is the
/// tag or the tag with `.vmlinuz`; entries are (file name, path) pairs.
pub fn resolve_kernel_by_tag(entries: &Vec<(String, String)>, tag: &str) -> (r: Option<String>)
    ensures
        match r {
            Some(p) => exists|i: int|
                0 <= i < entries@.len() && tag_matches(entries@[i].0@, tag@) && p@ == entries@[i].1@
                    && forall|j: int| 0 <= j < i ==> !tag_matches(#[trigger] entries@[j].0@, tag@),
            None => forall|j: int| 0 <= j < entries@.len() ==> !tag_matches(#[trigger] entries@[j].0@, tag@),
        },
{
    let mut with_ext = to_owned_string(tag);
    push_str(&mut with_ext, ".vmlinuz");
    let mut i: usize = 0;
    while i < entries.len()
        invariant
            i <= entries@.len(),
            with_ext@ == tag@ + ".vmlinuz"@,
            forall|j: int| 0 <= j < i ==> !tag_matches(#[trigger] entries@[j].0@, tag@),
        decreases entries.len() - i,
    {
        let name = entries[i].0.as_str();
        if str_eq(name, tag) || str_eq(name, with_ext.as_str()) {
            return Some(entries[i].1.clone());
        }
        i = i + 1;
    }
    None
}

/// The kernel used when an image names none: `data_dir/bin/vmlinux`.
pub fn get_default_kernel_path(data_dir: &str) -> (r: String)
    ensures
        r@ == join_path(data_dir@, "bin/vmlinux"@),
{
    path_join(data_dir, "bin/vmlinux")
}

/// `~/.vyoma/images/<name>` with `/` and `:` in the name made `_`.
pub open spec fn image_dir_under(home: Seq<char>, name: Seq<char>) -> Seq<char> {
    join_path(join_path(join_path(home, ".vyoma"@), "images"@), map_char(map_char(name, '/', '_'), ':', '_'))
}

pub fn image_dir_candidate(home: &str, image_name: &str) -> (r: String)
    ensures
        r@ == image_dir_under(home@, image_name@),
{
    let a = path_join(home, ".vyoma");
    let b = path_join(a.as_str(), "images");
    let n1 = replace_char(image_name, '/', '_');
    let n2 = replace_char(n1.as_str(), ':', '_');
    path_join(b.as_str(), n2.as_str())
}

/// The on-disk directory of an image, given the home directory and whether
/// the candidate directory exists.
pub fn find_image_dir(home: Option<&str>, image_name: &str, dir_exists: bool) -> (r: Result<String, String>)
    ensures
        home is None ==> r is Err && r->Err_0@ == "No home directory"@,
        home is Some && dir_exists ==> r is Ok && r->Ok_0@ == image_dir_under(home->0@, image_name@),
        home is Some && !dir_exists ==> r is Err && r->Err_0@ == "Image directory not found for image: "@
            + image_name@,
{
    match home {
        None => Err(to_owned_string("No home directory")),
        Some(h) => {
            if dir_exists {
                Ok(image_dir_candidate(h, image_name))
            } else {
                let mut m = to_owned_string("Image directory not found for image: ");
                push_str(&mut m, image_name);
                Err(m)
            }
        },
    }
}

} // verus!
