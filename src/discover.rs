//! The discovery walk over roots and directory listings, and image records.
use vstd::prelude::*;
use crate::classify::{file_name, file_name_of, is_hidden, is_hidden_name, is_image_file, is_image_path};
use crate::identity::{generate_uuid, identity_of};
use crate::sniff::{detected_mime, get_image_mime, image_mime_of};

verus! {

/// What a filesystem entry is.
#[derive(Clone, Copy, PartialEq, Eq, Structural, Debug)]
pub enum EntryKind {
    File,
    Dir,
    Other,
}

/// What the filesystem reports of one entry: its path, its kind, and whether
/// the platform marks it hidden by an attribute.
pub struct Probe {
    pub path: String,
    pub kind: EntryKind,
    pub hidden_attr: bool,
}

/// A candidate image path with the directory names between its traversal root
/// and its parent.
pub struct PathData {
    pub path: String,
    pub dir: Vec<String>,
}

/// The characters of each segment.
pub open spec fn seg_views(v: Seq<String>) -> Seq<Seq<char>> {
    v.map_values(|s: String| s@)
}

impl View for PathData {
    type V = (Seq<char>, Seq<Seq<char>>);

    open spec fn view(&self) -> (Seq<char>, Seq<Seq<char>>) {
        (self.path@, seg_views(self.dir@))
    }
}

/// The view of each entry.
pub open spec fn path_views(v: Seq<PathData>) -> Seq<(Seq<char>, Seq<Seq<char>>)> {
    v.map_values(|d: PathData| d@)
}

/// A directory worth descending into: a directory that is neither named nor
/// marked as hidden.
pub open spec fn active_dir(p: Probe) -> bool {
    &&& p.kind is Dir
    &&& !p.hidden_attr
    &&& match file_name_of(p.path@) {
        Some(n) => !is_hidden(n),
        None => true,
    }
}

/// What an entry under lineage `base` adds to the found images.
pub open spec fn entry_found(p: Probe, base: Seq<Seq<char>>) -> Seq<(Seq<char>, Seq<Seq<char>>)> {
    if p.kind is File && is_image_path(p.path@) {
        seq![(p.path@, base)]
    } else {
        Seq::empty()
    }
}

/// What an entry under lineage `base` adds to the directories still to list.
pub open spec fn entry_pending(p: Probe, base: Seq<Seq<char>>) -> Seq<(Seq<char>, Seq<Seq<char>>)> {
    if active_dir(p) && file_name_of(p.path@) is Some {
        seq![(p.path@, base.push(file_name_of(p.path@)->Some_0))]
    } else {
        Seq::empty()
    }
}

/// What a directory listing adds to the found images.
pub open spec fn listing_found(ps: Seq<Probe>, base: Seq<Seq<char>>) -> Seq<(Seq<char>, Seq<Seq<char>>)>
    decreases ps.len(),
{
    if ps.len() == 0 {
        Seq::empty()
    } else {
        listing_found(ps.drop_last(), base) + entry_found(ps.last(), base)
    }
}

/// What a directory listing adds to the directories still to list.
pub open spec fn listing_pending(ps: Seq<Probe>, base: Seq<Seq<char>>) -> Seq<(Seq<char>, Seq<Seq<char>>)>
    decreases ps.len(),
{
    if ps.len() == 0 {
        Seq::empty()
    } else {
        listing_pending(ps.drop_last(), base) + entry_pending(ps.last(), base)
    }
}

/// No segment of the lineage follows the hidden-entry convention.
pub open spec fn visible_lineage(segs: Seq<Seq<char>>) -> bool {
    forall|i: int| 0 <= i < segs.len() ==> !is_hidden(#[trigger] segs[i])
}

/// Every entry of `es` has a visible lineage.
pub open spec fn all_visible(es: Seq<(Seq<char>, Seq<Seq<char>>)>) -> bool {
    forall|k: int| 0 <= k < es.len() ==> visible_lineage(#[trigger] es[k].1)
}

/// True when the entry is a directory to descend into.
pub fn is_active_dir(probe: &Probe) -> (r: bool)
    ensures
        r == active_dir(*probe),
{
    if probe.kind != EntryKind::Dir || probe.hidden_attr {
        return false;
    }
    match file_name(probe.path.as_str()) {
        Some(n) => !is_hidden_name(n.as_str()),
        None => true,
    }
}

fn clone_segments(v: &Vec<String>) -> (r: Vec<String>)
    ensures
        seg_views(r@) == seg_views(v@),
{
    let mut r: Vec<String> = Vec::new();
    let mut i: usize = 0;
    while i < v.len()
        invariant
            i <= v@.len(),
            r@.len() == i,
            forall|j: int| 0 <= j < i ==> (#[trigger] r@[j])@ == v@[j]@,
        decreases v@.len() - i,
    {
        let s = v[i].clone();
        r.push(s);
        i = i + 1;
    }
    assert(seg_views(r@) =~= seg_views(v@));
    r
}

/// The state of a depth-first discovery walk. The caller lists each directory
/// that `next_dir` hands out and passes the listing to `add_listing`.
pub struct Walk {
    found: Vec<PathData>,
    pending: Vec<PathData>,
    current: Vec<String>,
}

/// The found images, the directories still to list, and the lineage of the
/// directory being listed.
pub struct WalkView {
    pub found: Seq<(Seq<char>, Seq<Seq<char>>)>,
    pub pending: Seq<(Seq<char>, Seq<Seq<char>>)>,
    pub current: Seq<Seq<char>>,
}

impl View for Walk {
    type V = WalkView;

    closed spec fn view(&self) -> WalkView {
        WalkView {
            found: path_views(self.found@),
            pending: path_views(self.pending@),
            current: seg_views(self.current@),
        }
    }
}

impl Walk {
    /// No hidden directory ever enters the lineage of a found image or of a
    /// directory still to list.
    pub open spec fn wf(&self) -> bool {
        &&& all_visible(self@.found)
        &&& all_visible(self@.pending)
        &&& visible_lineage(self@.current)
    }

    /// A walk with nothing found and nothing to list.
    pub fn new() -> (r: Walk)
        ensures
            r.wf(),
            r@.found == Seq::<(Seq<char>, Seq<Seq<char>>)>::empty(),
            r@.pending == Seq::<(Seq<char>, Seq<Seq<char>>)>::empty(),
            r@.current == Seq::<Seq<char>>::empty(),
    {
        let r = Walk { found: Vec::new(), pending: Vec::new(), current: Vec::new() };
        assert(r@.found =~= Seq::empty());
        assert(r@.pending =~= Seq::empty());
        assert(r@.current =~= Seq::empty());
        r
    }

    fn push_entry(&mut self, p: &Probe, base: &Vec<String>)
        requires
            old(self).wf(),
            visible_lineage(seg_views(base@)),
        ensures
            final(self).wf(),
            final(self)@.found == old(self)@.found + entry_found(*p, seg_views(base@)),
            final(self)@.pending == old(self)@.pending + entry_pending(*p, seg_views(base@)),
            final(self)@.current == old(self)@.current,
    {
        let ghost b = seg_views(base@);
        if p.kind == EntryKind::File && is_image_file(p.path.as_str()) {
            let d = PathData { path: p.path.clone(), dir: clone_segments(base) };
            self.found.push(d);
            assert(path_views(self.found@) =~= path_views(old(self).found@) + seq![(p.path@, b)]);
        } else if is_active_dir(p) {
            match file_name(p.path.as_str()) {
                Some(n) => {
                    let ghost nv = n@;
                    let mut segs = clone_segments(base);
                    segs.push(n);
                    assert(seg_views(segs@) =~= b.push(nv));
                    let d = PathData { path: p.path.clone(), dir: segs };
                    self.pending.push(d);
                    assert(path_views(self.pending@) =~= path_views(old(self).pending@) + seq![
                        (p.path@, b.push(nv)),
                    ]);
                    assert(visible_lineage(b.push(nv)));
                },
                None => {},
            }
        }
        assert(self@.found =~= old(self)@.found + entry_found(*p, b));
        assert(self@.pending =~= old(self)@.pending + entry_pending(*p, b));
    }

    /// Takes in one path that the user chose: an image file is found with an
    /// empty lineage; a directory to descend into is queued with its own name
    /// as its lineage.
    pub fn add_root(&mut self, p: &Probe)
        requires
            old(self).wf(),
        ensures
            final(self).wf(),
            final(self)@.found == old(self)@.found + entry_found(*p, Seq::empty()),
            final(self)@.pending == old(self)@.pending + entry_pending(*p, Seq::empty()),
            final(self)@.current == old(self)@.current,
    {
        let empty: Vec<String> = Vec::new();
        assert(seg_views(empty@) =~= Seq::empty());
        self.push_entry(p, &empty);
    }

    /// Hands out the next directory to list, and makes its lineage the one that
    /// `add_listing` gives to its entries; `None` once the walk is complete.
    pub fn next_dir(&mut self) -> (r: Option<String>)
        requires
            old(self).wf(),
        ensures
            final(self).wf(),
            final(self)@.found == old(self)@.found,
            old(self)@.pending.len() == 0 ==> r is None && final(self)@ == old(self)@,
            old(self)@.pending.len() > 0 ==> {
                &&& r matches Some(path) && path@ == old(self)@.pending.last().0
                &&& final(self)@.pending == old(self)@.pending.drop_last()
                &&& final(self)@.current == old(self)@.pending.last().1
            },
    {
        match self.pending.pop() {
            Some(d) => {
                proof {
                    let k = old(self)@.pending.len() - 1;
                    assert(old(self)@.pending[k] == d@);
                    assert(path_views(self.pending@) =~= old(self)@.pending.drop_last());
                    assert(visible_lineage(old(self)@.pending[k].1));
                }
                self.current = d.dir;
                Some(d.path)
            },
            None => {
                assert(old(self)@.pending.len() == 0);
                None
            },
        }
    }

    /// Takes in the listing of the directory that `next_dir` handed out last:
    /// each image file is found and each directory to descend into is queued,
    /// both under that directory's lineage.
    pub fn add_listing(&mut self, entries: &Vec<Probe>)
        requires
            old(self).wf(),
        ensures
            final(self).wf(),
            final(self)@.found == old(self)@.found + listing_found(entries@, old(self)@.current),
            final(self)@.pending == old(self)@.pending + listing_pending(
                entries@,
                old(self)@.current,
            ),
            final(self)@.current == old(self)@.current,
    {
        let base = clone_segments(&self.current);
        let ghost b = seg_views(base@);
        let mut i: usize = 0;
        while i < entries.len()
            invariant
                i <= entries@.len(),
                self.wf(),
                b == old(self)@.current,
                b == seg_views(base@),
                visible_lineage(b),
                self@.current == old(self)@.current,
                self@.found == old(self)@.found + listing_found(entries@.subrange(0, i as int), b),
                self@.pending == old(self)@.pending + listing_pending(
                    entries@.subrange(0, i as int),
                    b,
                ),
            decreases entries@.len() - i,
        {
            self.push_entry(&entries[i], &base);
            proof {
                let s = entries@.subrange(0, i + 1);
                assert(s.drop_last() =~= entries@.subrange(0, i as int));
                assert(s.last() == entries@[i as int]);
                assert(self@.found =~= old(self)@.found + listing_found(s, b));
                assert(self@.pending =~= old(self)@.pending + listing_pending(s, b));
            }
            i = i + 1;
        }
        assert(entries@.subrange(0, entries@.len() as int) =~= entries@);
    }

    /// The images found so far.
    pub fn into_found(self) -> (r: Vec<PathData>)
        ensures
            path_views(r@) == self@.found,
    {
        self.found
    }
}

/// A directory named as hidden adds nothing to a walk, whatever it holds: it is
/// neither found nor descended into.
pub proof fn hidden_directory_contributes_nothing(p: Probe, base: Seq<Seq<char>>)
    requires
        p.kind is Dir,
        file_name_of(p.path@) matches Some(n) && is_hidden(n),
    ensures
        entry_found(p, base) == Seq::<(Seq<char>, Seq<Seq<char>>)>::empty(),
        entry_pending(p, base) == Seq::<(Seq<char>, Seq<Seq<char>>)>::empty(),
{
}

/// Whatever roots and listings a walk has taken in, no image it found lies
/// under a directory named as hidden.
pub proof fn found_images_avoid_hidden_directories(w: Walk, k: int, i: int)
    requires
        w.wf(),
        0 <= k < w@.found.len(),
        0 <= i < w@.found[k].1.len(),
    ensures
        !is_hidden(w@.found[k].1[i]),
{
    assert(visible_lineage(w@.found[k].1));
}

/// A discovered image: its identity, path, file name, size, MIME type and
/// lineage of directories.
pub struct ImageInfo {
    pub uuid: String,
    pub path: String,
    pub file_name: String,
    pub file_size: u64,
    pub mime: String,
    pub dir: Vec<String>,
}

/// `info` records the image at `data` with type `mime` and size `file_size`.
pub open spec fn describes(info: ImageInfo, data: PathData, mime: Seq<char>, file_size: u64) -> bool {
    &&& info.uuid@ == identity_of(data.path@)
    &&& info.path@ == data.path@
    &&& file_name_of(data.path@) == Some(info.file_name@)
    &&& info.file_size == file_size
    &&& info.mime@ == mime
    &&& seg_views(info.dir@) == seg_views(data.dir@)
}

/// The record of a found path, given the file's leading bytes and its size.
/// `None` when the content is not a JPEG, PNG or WebP image, or the path has no
/// file name.
pub fn make_image_info(data: &PathData, header: &[u8], file_size: u64) -> (r: Option<ImageInfo>)
    ensures
        r is Some <==> (image_mime_of(detected_mime(header@)) is Some && file_name_of(data.path@) is Some),
        r matches Some(info) ==> describes(info, *data, image_mime_of(detected_mime(header@))->Some_0, file_size),
{
    let mime = match get_image_mime(header) {
        Some(m) => m,
        None => return None,
    };
    let name = match file_name(data.path.as_str()) {
        Some(n) => n,
        None => return None,
    };
    Some(ImageInfo {
        uuid: generate_uuid(data.path.as_str()),
        path: data.path.clone(),
        file_name: name,
        file_size,
        mime,
        dir: clone_segments(&data.dir),
    })
}

/// The records made for one path carry the same identity, in any run: the
/// identity depends on the path alone.
pub proof fn same_path_same_identity(a: ImageInfo, b: ImageInfo, d: PathData, e: PathData, m: Seq<char>, n: Seq<char>, x: u64, y: u64)
    requires
        describes(a, d, m, x),
        describes(b, e, n, y),
        d.path@ == e.path@,
    ensures
        a.uuid@ == b.uuid@,
{
}

} // verus!
