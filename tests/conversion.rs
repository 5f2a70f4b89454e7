use imgbatch::convert::{
    collect_results, join_path, output_name, output_path, parse_format, plan_conversion, plan_outputs,
    FileInfo, Format, ImageOptions,
};
use imgbatch::discover::{make_image_info, EntryKind, Probe, Walk};

const PNG_HEADER: [u8; 8] = [0x89, b'P', b'N', b'G', 0x0d, 0x0a, 0x1a, 0x0a];
const JPEG_HEADER: [u8; 4] = [0xff, 0xd8, 0xff, 0xe0];

fn item(uuid: &str, path: &str, name: &str, dir: &[&str]) -> FileInfo {
    FileInfo {
        uuid: uuid.to_string(),
        path: path.to_string(),
        file_name: name.to_string(),
        dir: dir.iter().map(|s| s.to_string()).collect(),
    }
}

fn webp_options(output: &str) -> ImageOptions {
    ImageOptions { format: "webp".to_string(), quality: 80, output: output.to_string() }
}

#[test]
fn formats_by_name() {
    assert_eq!(parse_format("webp"), Ok(Format::Webp));
    assert_eq!(parse_format("avif"), Ok(Format::Avif));
    assert_eq!(parse_format("png"), Err("Unknown format: png".to_string()));
    assert_eq!(parse_format("WEBP"), Err("Unknown format: WEBP".to_string()));
    assert_eq!(parse_format(""), Err("Unknown format: ".to_string()));
}

#[test]
fn joining_components() {
    assert_eq!(join_path("/out", "x"), "/out/x");
    assert_eq!(join_path("/out/", "x"), "/out/x");
    assert_eq!(join_path("", "x"), "x");
    assert_eq!(join_path("/", "x"), "/x");
}

#[test]
fn output_names_append_the_format() {
    assert_eq!(output_name("a.jpg", Format::Webp), "a.jpg.webp");
    assert_eq!(output_name("b.png", Format::Avif), "b.png.avif");
}

#[test]
fn output_paths_keep_the_hierarchy() {
    assert_eq!(output_path("/out", &Vec::new(), "a.jpg", Format::Webp), "/out/a.jpg.webp");
    let segs = vec!["sub".to_string(), "deep".to_string()];
    assert_eq!(output_path("/out/", &segs, "c.png", Format::Avif), "/out/sub/deep/c.png.avif");
}

#[test]
fn unknown_format_rejects_the_batch() {
    let items = vec![item("u1", "/in/a.jpg", "a.jpg", &[])];
    let options = ImageOptions { format: "gif".to_string(), quality: 80, output: "/out".to_string() };
    match plan_conversion(&items, &options) {
        Err(e) => assert_eq!(e, "Unknown format: gif"),
        Ok(_) => panic!("an unknown format must be rejected"),
    }
}

#[test]
fn plan_for_each_item() {
    let items = vec![item("u1", "/in/a.jpg", "a.jpg", &[]), item("u2", "/in/sub/b.png", "b.png", &["sub"])];
    let plan = plan_conversion(&items, &webp_options("/out")).unwrap();
    assert_eq!(plan.format, Format::Webp);
    assert_eq!(plan.quality, 80);
    assert_eq!(plan.output, "/out");
    assert_eq!(plan.jobs.len(), 2);
    assert_eq!(plan.jobs[0].uuid, "u1");
    assert_eq!(plan.jobs[0].source, "/in/a.jpg");
    assert_eq!(plan.jobs[0].out_dir, "/out");
    assert_eq!(plan.jobs[0].out_path, "/out/a.jpg.webp");
    assert!(!plan.jobs[0].nested);
    assert_eq!(plan.jobs[1].out_dir, "/out/sub");
    assert_eq!(plan.jobs[1].out_path, "/out/sub/b.png.webp");
    assert!(plan.jobs[1].nested);
}

#[test]
fn convert_and_check_agree_on_paths() {
    let items = vec![item("u1", "/in/a.jpg", "a.jpg", &[]), item("u2", "/in/sub/b.png", "b.png", &["sub"])];
    let plan = plan_conversion(&items, &webp_options("/out")).unwrap();
    let check = plan_outputs(&items, "/out", Format::Webp);
    assert_eq!(plan.jobs.len(), check.len());
    for (a, b) in plan.jobs.iter().zip(check.iter()) {
        assert_eq!(a.out_path, b.out_path);
        assert_eq!(a.uuid, b.uuid);
    }
}

#[test]
fn one_failure_is_isolated() {
    let items = vec![
        item("u1", "/in/a.jpg", "a.jpg", &[]),
        item("u2", "/in/broken.jpg", "broken.jpg", &[]),
        item("u3", "/in/sub/b.png", "b.png", &["sub"]),
    ];
    let plan = plan_conversion(&items, &webp_options("/out")).unwrap();
    let results = collect_results(&plan.jobs, &vec![Some(100), None, Some(250)]);
    assert_eq!(results.len(), 2);
    assert_eq!(results[0].uuid, "u1");
    assert_eq!(results[0].path, "/out/a.jpg.webp");
    assert_eq!(results[0].file_size, 100);
    assert_eq!(results[1].uuid, "u3");
    assert_eq!(results[1].path, "/out/sub/b.png.webp");
    assert_eq!(results[1].file_size, 250);
}

#[test]
fn all_failures_give_no_results() {
    let items = vec![item("u1", "/in/a.jpg", "a.jpg", &[])];
    let plan = plan_conversion(&items, &webp_options("/out")).unwrap();
    assert!(collect_results(&plan.jobs, &vec![None]).is_empty());
    assert!(collect_results(&Vec::new(), &Vec::new()).is_empty());
}

#[test]
fn resume_reports_what_was_converted() {
    let items = vec![item("u1", "/in/a.jpg", "a.jpg", &[]), item("u2", "/in/sub/b.png", "b.png", &["sub"])];
    let plan = plan_conversion(&items, &webp_options("/out")).unwrap();
    let made = collect_results(&plan.jobs, &vec![Some(100), Some(250)]);
    let check = plan_outputs(&items, "/out", Format::Webp);
    let seen = collect_results(&check, &vec![Some(100), Some(250)]);
    assert_eq!(made.len(), seen.len());
    for (a, b) in made.iter().zip(seen.iter()) {
        assert_eq!(a.uuid, b.uuid);
        assert_eq!(a.path, b.path);
        assert_eq!(a.file_size, b.file_size);
    }
}

#[test]
fn discover_then_convert_scenario() {
    let mut w = Walk::new();
    w.add_root(&Probe { path: "/in/a.jpg".to_string(), kind: EntryKind::File, hidden_attr: false });
    w.add_root(&Probe { path: "/in/sub".to_string(), kind: EntryKind::Dir, hidden_attr: false });
    while let Some(d) = w.next_dir() {
        assert_eq!(d, "/in/sub");
        w.add_listing(&vec![Probe {
            path: "/in/sub/b.png".to_string(),
            kind: EntryKind::File,
            hidden_attr: false,
        }]);
    }
    let found = w.into_found();
    let a = make_image_info(&found[0], &JPEG_HEADER, 10).unwrap();
    let b = make_image_info(&found[1], &PNG_HEADER, 20).unwrap();
    assert!(a.dir.is_empty());
    assert_eq!(b.dir, vec!["sub".to_string()]);
    let items: Vec<FileInfo> = [a, b]
        .into_iter()
        .map(|i| FileInfo { uuid: i.uuid, path: i.path, file_name: i.file_name, dir: i.dir })
        .collect();
    let plan = plan_conversion(&items, &webp_options("/out")).unwrap();
    assert_eq!(plan.jobs[0].out_path, "/out/a.jpg.webp");
    assert_eq!(plan.jobs[1].out_path, "/out/sub/b.png.webp");
    assert_eq!(plan.jobs[1].out_dir, "/out/sub");
}
