//! Output paths, conversion plans and the collection of batch results.
use vstd::prelude::*;
use vstd::string::*;
use crate::classify::{str_eq, SEP};
use crate::discover::seg_views;

verus! {

/// The target formats.
#[derive(Clone, Copy, PartialEq, Eq, Structural, Debug)]
pub enum Format {
    Webp,
    Avif,
}

/// The name of a format, which is also the extension of its files.
pub open spec fn format_name(f: Format) -> Seq<char> {
    match f {
        Format::Webp => "webp"@,
        Format::Avif => "avif"@,
    }
}

/// The name of `f`.
pub fn format_extension(f: Format) -> (r: &'static str)
    ensures
        r@ == format_name(f),
{
    match f {
        Format::Webp => "webp",
        Format::Avif => "avif",
    }
}

/// The message that rejects an unknown format.
pub open spec fn unknown_format_message(s: Seq<char>) -> Seq<char> {
    "Unknown format: "@ + s
}

/// The format that `s` names; any name but `webp` and `avif` is rejected with
/// a message that quotes it.
pub fn parse_format(s: &str) -> (r: Result<Format, String>)
    ensures
        s@ == "webp"@ ==> r == Ok::<Format, String>(Format::Webp),
        s@ == "avif"@ ==> r == Ok::<Format, String>(Format::Avif),
        s@ != "webp"@ && s@ != "avif"@ ==> (r matches Err(e) && e@ == unknown_format_message(s@)),
{
    proof {
        reveal_strlit("webp");
        reveal_strlit("avif");
        assert("webp"@[0] != "avif"@[0]);
    }
    if str_eq(s, "webp") {
        Ok(Format::Webp)
    } else if str_eq(s, "avif") {
        Ok(Format::Avif)
    } else {
        Err(String::from_str("Unknown format: ").concat(s))
    }
}

/// `base` followed by the component `s`, with one separator between them.
pub open spec fn join(base: Seq<char>, s: Seq<char>) -> Seq<char> {
    if base.len() == 0 {
        s
    } else if base.last() == SEP {
        base + s
    } else {
        base.push(SEP) + s
    }
}

/// `base` followed by each of `segs` in turn.
pub open spec fn join_all(base: Seq<char>, segs: Seq<Seq<char>>) -> Seq<char>
    decreases segs.len(),
{
    if segs.len() == 0 {
        base
    } else {
        join(join_all(base, segs.drop_last()), segs.last())
    }
}

/// The name of the converted file: the source's file name with the format's
/// extension appended, so that sources that differ only in their extension
/// never share an output.
pub open spec fn output_name_of(file_name: Seq<char>, f: Format) -> Seq<char> {
    file_name + "."@ + format_name(f)
}

/// Where a converted file goes: under the output root, in the same lineage of
/// directories as its source.
pub open spec fn output_path_of(
    root: Seq<char>,
    segs: Seq<Seq<char>>,
    file_name: Seq<char>,
    f: Format,
) -> Seq<char> {
    join(join_all(root, segs), output_name_of(file_name, f))
}

/// `base` followed by the component `s`.
pub fn join_path(base: &str, s: &str) -> (r: String)
    ensures
        r@ == join(base@, s@),
{
    let n = base.unicode_len();
    let b = String::from_str(base);
    if n == 0 {
        String::from_str(s)
    } else if base.get_char(n - 1) == SEP {
        b.concat(s)
    } else {
        proof {
            reveal_strlit("/");
        }
        let r = b.concat("/").concat(s);
        assert(r@ =~= base@.push(SEP) + s@);
        r
    }
}

/// `base` followed by each of `segs` in turn.
pub fn join_segments(base: &str, segs: &Vec<String>) -> (r: String)
    ensures
        r@ == join_all(base@, seg_views(segs@)),
{
    let mut r = String::from_str(base);
    let mut i: usize = 0;
    while i < segs.len()
        invariant
            i <= segs@.len(),
            r@ == join_all(base@, seg_views(segs@.subrange(0, i as int))),
        decreases segs@.len() - i,
    {
        let next = join_path(r.as_str(), segs[i].as_str());
        proof {
            let t = seg_views(segs@.subrange(0, i + 1));
            assert(t.drop_last() =~= seg_views(segs@.subrange(0, i as int)));
            assert(t.last() == segs@[i as int]@);
        }
        r = next;
        i = i + 1;
    }
    assert(segs@.subrange(0, segs@.len() as int) =~= segs@);
    r
}

/// The output file name for `file_name` in format `f`.
pub fn output_name(file_name: &str, f: Format) -> (r: String)
    ensures
        r@ == output_name_of(file_name@, f),
{
    proof {
        reveal_strlit(".");
    }
    String::from_str(file_name).concat(".").concat(format_extension(f))
}

/// Where the file converted from `file_name` under lineage `segs` goes.
pub fn output_path(root: &str, segs: &Vec<String>, file_name: &str, f: Format) -> (r: String)
    ensures
        r@ == output_path_of(root@, seg_views(segs@), file_name@, f),
{
    let dir = join_segments(root, segs);
    let name = output_name(file_name, f);
    join_path(dir.as_str(), name.as_str())
}

/// One source image to convert: its identity, its path, its file name and its
/// lineage of directories.
pub struct FileInfo {
    pub uuid: String,
    pub path: String,
    pub file_name: String,
    pub dir: Vec<String>,
}

/// How to convert: the format's name, the quality (1 to 100) and the output root.
pub struct ImageOptions {
    pub format: String,
    pub quality: u8,
    pub output: String,
}

/// A converted file: the identity of its source, its path and its size.
pub struct ConvertedData {
    pub uuid: String,
    pub path: String,
    pub file_size: u64,
}

impl View for ConvertedData {
    type V = (Seq<char>, Seq<char>, u64);

    open spec fn view(&self) -> (Seq<char>, Seq<char>, u64) {
        (self.uuid@, self.path@, self.file_size)
    }
}

/// The view of each result.
pub open spec fn result_views(v: Seq<ConvertedData>) -> Seq<(Seq<char>, Seq<char>, u64)> {
    v.map_values(|d: ConvertedData| d@)
}

/// The work for one source: where to read, which directory must exist, and
/// where to write. `nested` is set when that directory lies below the output
/// root.
pub struct Job {
    pub uuid: String,
    pub source: String,
    pub out_dir: String,
    pub out_path: String,
    pub nested: bool,
}

/// `j` is the job for `item` under output root `root` in format `f`.
pub open spec fn job_for(j: Job, item: FileInfo, root: Seq<char>, f: Format) -> bool {
    &&& j.uuid@ == item.uuid@
    &&& j.source@ == item.path@
    &&& j.out_dir@ == join_all(root, seg_views(item.dir@))
    &&& j.out_path@ == output_path_of(root, seg_views(item.dir@), item.file_name@, f)
    &&& j.nested == (item.dir@.len() > 0)
}

/// `js` holds the job for each of `items`, in the same order.
pub open spec fn jobs_for(js: Seq<Job>, items: Seq<FileInfo>, root: Seq<char>, f: Format) -> bool {
    &&& js.len() == items.len()
    &&& forall|i: int| 0 <= i < js.len() ==> job_for(#[trigger] js[i], items[i], root, f)
}

/// The job for `item`.
pub fn plan_job(item: &FileInfo, root: &str, f: Format) -> (r: Job)
    ensures
        job_for(r, *item, root@, f),
{
    let dir = join_segments(root, &item.dir);
    let out_path = output_path(root, &item.dir, item.file_name.as_str(), f);
    Job {
        uuid: item.uuid.clone(),
        source: item.path.clone(),
        out_dir: dir,
        out_path,
        nested: item.dir.len() > 0,
    }
}

/// The job for each item, in order. Converting and checking for earlier output
/// both go through this, so they agree on every output path.
pub fn plan_outputs(items: &Vec<FileInfo>, root: &str, f: Format) -> (r: Vec<Job>)
    ensures
        jobs_for(r@, items@, root@, f),
{
    let mut r: Vec<Job> = Vec::new();
    let mut i: usize = 0;
    while i < items.len()
        invariant
            i <= items@.len(),
            r@.len() == i,
            forall|j: int| 0 <= j < i ==> job_for(#[trigger] r@[j], items@[j], root@, f),
        decreases items@.len() - i,
    {
        let job = plan_job(&items[i], root, f);
        r.push(job);
        i = i + 1;
    }
    r
}

/// The format that a name stands for.
pub open spec fn format_named(s: Seq<char>) -> Option<Format> {
    if s == "webp"@ {
        Some(Format::Webp)
    } else if s == "avif"@ {
        Some(Format::Avif)
    } else {
        None
    }
}

/// A validated conversion: the format, the quality, the output root and the
/// job for each item.
pub struct ConversionPlan {
    pub format: Format,
    pub quality: u8,
    pub output: String,
    pub jobs: Vec<Job>,
}

/// Validates the options and plans every item; an unknown format rejects the
/// whole call before any work.
pub fn plan_conversion(items: &Vec<FileInfo>, options: &ImageOptions) -> (r: Result<
    ConversionPlan,
    String,
>)
    ensures
        format_named(options.format@) matches Some(f) ==> (r matches Ok(p) && p.format == f
            && p.quality == options.quality && p.output@ == options.output@ && jobs_for(
            p.jobs@,
            items@,
            options.output@,
            f,
        )),
        format_named(options.format@) is None ==> (r matches Err(e) && e@
            == unknown_format_message(options.format@)),
{
    let f = match parse_format(options.format.as_str()) {
        Ok(f) => f,
        Err(e) => return Err(e),
    };
    let jobs = plan_outputs(items, options.output.as_str(), f);
    Ok(ConversionPlan { format: f, quality: options.quality, output: options.output.clone(), jobs })
}

/// The results of a batch whose job `i` produced a file of size `sizes[i]`, or
/// failed where that is `None`: one result per success, in job order.
pub open spec fn results_of(js: Seq<Job>, sizes: Seq<Option<u64>>) -> Seq<(Seq<char>, Seq<char>, u64)>
    decreases js.len(),
{
    if js.len() == 0 || sizes.len() == 0 {
        Seq::empty()
    } else {
        let rest = results_of(js.drop_last(), sizes.drop_last());
        match sizes.last() {
            Some(n) => rest.push((js.last().uuid@, js.last().out_path@, n)),
            None => rest,
        }
    }
}

/// The results of a batch: the successful jobs with the sizes of their files.
/// A failed job is left out and affects no other.
pub fn collect_results(jobs: &Vec<Job>, sizes: &Vec<Option<u64>>) -> (r: Vec<ConvertedData>)
    requires
        jobs@.len() == sizes@.len(),
    ensures
        result_views(r@) == results_of(jobs@, sizes@),
{
    let mut r: Vec<ConvertedData> = Vec::new();
    let mut i: usize = 0;
    while i < jobs.len()
        invariant
            i <= jobs@.len() == sizes@.len(),
            result_views(r@) == results_of(
                jobs@.subrange(0, i as int),
                sizes@.subrange(0, i as int),
            ),
        decreases jobs@.len() - i,
    {
        let ghost prev = r@;
        let job = &jobs[i];
        match sizes[i] {
            Some(n) => {
                r.push(ConvertedData { uuid: job.uuid.clone(), path: job.out_path.clone(), file_size: n });
                assert(result_views(r@) =~= result_views(prev).push((job.uuid@, job.out_path@, n)));
            },
            None => {},
        }
        proof {
            let js = jobs@.subrange(0, i + 1);
            let ss = sizes@.subrange(0, i + 1);
            assert(js.drop_last() =~= jobs@.subrange(0, i as int));
            assert(ss.drop_last() =~= sizes@.subrange(0, i as int));
            assert(js.last() == jobs@[i as int]);
            assert(ss.last() == sizes@[i as int]);
        }
        i = i + 1;
    }
    assert(jobs@.subrange(0, jobs@.len() as int) =~= jobs@);
    assert(sizes@.subrange(0, sizes@.len() as int) =~= sizes@);
    r
}

/// How many entries of `sizes` record a success.
pub open spec fn successes(sizes: Seq<Option<u64>>) -> nat
    decreases sizes.len(),
{
    if sizes.len() == 0 {
        0
    } else {
        successes(sizes.drop_last()) + if sizes.last() is Some {
            1nat
        } else {
            0nat
        }
    }
}

/// A batch has exactly one result per successful job.
pub proof fn results_count_successes(js: Seq<Job>, sizes: Seq<Option<u64>>)
    requires
        js.len() == sizes.len(),
    ensures
        results_of(js, sizes).len() == successes(sizes),
    decreases js.len(),
{
    if js.len() > 0 {
        results_count_successes(js.drop_last(), sizes.drop_last());
    }
}

proof fn one_failure_count(sizes: Seq<Option<u64>>, k: int)
    requires
        0 <= k < sizes.len(),
        sizes[k] is None,
        forall|i: int| 0 <= i < sizes.len() && i != k ==> (#[trigger] sizes[i]) is Some,
    ensures
        successes(sizes) == sizes.len() - 1,
    decreases sizes.len(),
{
    if k < sizes.len() - 1 {
        let t = sizes.drop_last();
        assert forall|i: int| 0 <= i < t.len() && i != k implies (#[trigger] t[i]) is Some by {
            assert(t[i] == sizes[i]);
        }
        one_failure_count(t, k);
    } else {
        let t = sizes.drop_last();
        all_success_count(t);
    }
}

proof fn all_success_count(sizes: Seq<Option<u64>>)
    requires
        forall|i: int| 0 <= i < sizes.len() ==> (#[trigger] sizes[i]) is Some,
    ensures
        successes(sizes) == sizes.len(),
    decreases sizes.len(),
{
    if sizes.len() > 0 {
        let t = sizes.drop_last();
        assert forall|i: int| 0 <= i < t.len() implies (#[trigger] t[i]) is Some by {
            assert(t[i] == sizes[i]);
        }
        all_success_count(t);
    }
}

/// Of N jobs of which exactly one fails, the batch still gives N - 1 results.
pub proof fn one_failure_loses_one_result(js: Seq<Job>, sizes: Seq<Option<u64>>, k: int)
    requires
        js.len() == sizes.len(),
        0 <= k < sizes.len(),
        sizes[k] is None,
        forall|i: int| 0 <= i < sizes.len() && i != k ==> (#[trigger] sizes[i]) is Some,
    ensures
        results_of(js, sizes).len() == js.len() - 1,
{
    results_count_successes(js, sizes);
    one_failure_count(sizes, k);
}

/// A job that succeeded with a file of size `n` has the result `(uuid, out_path, n)`.
pub proof fn success_is_reported(js: Seq<Job>, sizes: Seq<Option<u64>>, i: int)
    requires
        js.len() == sizes.len(),
        0 <= i < js.len(),
        sizes[i] is Some,
    ensures
        results_of(js, sizes).contains((js[i].uuid@, js[i].out_path@, sizes[i]->Some_0)),
    decreases js.len(),
{
    let rest = results_of(js.drop_last(), sizes.drop_last());
    if i == js.len() - 1 {
        assert(results_of(js, sizes) == rest.push((js[i].uuid@, js[i].out_path@, sizes[i]->Some_0)));
        assert(results_of(js, sizes).last() == (js[i].uuid@, js[i].out_path@, sizes[i]->Some_0));
    } else {
        success_is_reported(js.drop_last(), sizes.drop_last(), i);
        assert(js.drop_last()[i] == js[i]);
        assert(sizes.drop_last()[i] == sizes[i]);
        let x = choose|x: int| 0 <= x < rest.len() && rest[x] == (js[i].uuid@, js[i].out_path@, sizes[i]->Some_0);
        match sizes.last() {
            Some(n) => {
                assert(results_of(js, sizes)[x] == rest[x]);
            },
            None => {},
        }
    }
}

/// Checking for earlier output after a conversion reports every converted item
/// as that conversion did, at the same path and with the same size, provided
/// the files it wrote are still there: resuming repeats no work.
pub proof fn resume_finds_converted_items(
    items: Seq<FileInfo>,
    root: Seq<char>,
    f: Format,
    converted: Seq<Job>,
    checked: Seq<Job>,
    made: Seq<Option<u64>>,
    seen: Seq<Option<u64>>,
    i: int,
)
    requires
        jobs_for(converted, items, root, f),
        jobs_for(checked, items, root, f),
        made.len() == items.len(),
        seen.len() == items.len(),
        forall|j: int| 0 <= j < made.len() && (#[trigger] made[j]) is Some ==> seen[j] == made[j],
        0 <= i < items.len(),
        made[i] is Some,
    ensures
        results_of(converted, made).contains((items[i].uuid@, converted[i].out_path@, made[i]->Some_0)),
        results_of(checked, seen).contains((items[i].uuid@, converted[i].out_path@, made[i]->Some_0)),
{
    assert(job_for(converted[i], items[i], root, f));
    assert(job_for(checked[i], items[i], root, f));
    success_is_reported(converted, made, i);
    success_is_reported(checked, seen, i);
}

/// Converting and checking for earlier output compute the same output path for
/// the same item and options.
pub proof fn output_path_is_deterministic(a: Job, b: Job, item: FileInfo, root: Seq<char>, f: Format)
    requires
        job_for(a, item, root, f),
        job_for(b, item, root, f),
    ensures
        a.out_path@ == b.out_path@,
        a.out_path@ == output_path_of(root, seg_views(item.dir@), item.file_name@, f),
{
}

} // verus!
