use image::{DynamicImage, ImageFormat, Rgb, RgbImage};
use img_comp::{
    dispatch, root_dir, scale_down, walk_efs, DirData, DirEntryInfo, Dispatch, Elapsed, FilterKind,
    Response, ScaleOp, TransformError,
};
use std::io::Cursor;

fn snapshot(size: &str) -> DirData {
    DirData { files: Vec::new(), size: size.to_string() }
}

#[test]
fn the_report_of_a_shrinking_job() {
    let report = Response::new(
        ScaleOp::Down,
        &snapshot("600 bytes"),
        &snapshot("150 bytes"),
        &Elapsed::new(0, 1_500_000).unwrap(),
    );
    assert_eq!(report.time, "Scale down took 1 ms");
    assert_eq!(report.size, "Init dir size: 600 bytes --> Scaled dir size: 150 bytes.");
}

#[test]
fn the_report_of_an_enlarging_job() {
    let report = Response::new(
        ScaleOp::Up,
        &snapshot("600 bytes"),
        &snapshot("2400 bytes"),
        &Elapsed::new(9, 999_000_000).unwrap(),
    );
    assert_eq!(report.time, "Scale up took 9.99 s");
    assert_eq!(report.size, "Init dir size: 600 bytes --> Scaled dir size: 2400 bytes.");
}

#[test]
fn an_unknown_operation_is_answered_with_the_error_marker() {
    let report = Response::incorrect_scale_op();
    assert_eq!(report.time, "ERROR incorrect scale_op");
    assert_eq!(report.size, "ERROR incorrect scale_op");
}

#[test]
fn sideways_runs_no_job() {
    match dispatch("photos", "sideways", 2, "gauss") {
        Dispatch::Answer(report) => {
            assert_eq!(report.time, "ERROR incorrect scale_op");
            assert_eq!(report.size, "ERROR incorrect scale_op");
        }
        other => panic!("a job was planned: {:?}", other),
    }
}

#[test]
fn an_unknown_operation_is_answered_whatever_the_factor() {
    assert!(matches!(dispatch("photos", "sideways", 0, "gauss"), Dispatch::Answer(_)));
    assert!(matches!(dispatch("", "", 7, ""), Dispatch::Answer(_)));
    assert!(matches!(dispatch("photos", "Down", 2, "near"), Dispatch::Answer(_)));
}

#[test]
fn a_known_operation_runs_on_the_directory_under_the_mount_point() {
    match dispatch("photos", "down", 2, "LCZ") {
        Dispatch::Run { root_dir, request } => {
            assert_eq!(root_dir, "/mnt/efs/photos");
            assert_eq!(request.get_op(), ScaleOp::Down);
            assert_eq!(request.get_factor(), 2);
            assert_eq!(request.get_filter(), FilterKind::Lanczos3);
        }
        other => panic!("no job was planned: {:?}", other),
    }
    match dispatch("a/b", "up", 10, "what") {
        Dispatch::Run { root_dir, request } => {
            assert_eq!(root_dir, "/mnt/efs/a/b");
            assert_eq!(request.get_op(), ScaleOp::Up);
            assert_eq!(request.get_factor(), 10);
            assert_eq!(request.get_filter(), FilterKind::Gaussian);
        }
        other => panic!("no job was planned: {:?}", other),
    }
}

#[test]
fn a_factor_of_zero_fails_under_a_known_operation() {
    assert!(matches!(dispatch("photos", "up", 0, "near"), Dispatch::Fail(TransformError::ZeroFactor)));
    assert!(matches!(dispatch("photos", "down", 0, "near"), Dispatch::Fail(TransformError::ZeroFactor)));
}

#[test]
fn the_root_directory_is_under_the_mount_point() {
    assert_eq!(root_dir("photos"), "/mnt/efs/photos");
    assert_eq!(root_dir(""), "/mnt/efs/");
    assert_eq!(root_dir("2024/été"), "/mnt/efs/2024/été");
}

fn png(width: u32, height: u32) -> Vec<u8> {
    let img = RgbImage::from_fn(width, height, |x, y| Rgb([(x * 31 % 256) as u8, (y * 17 % 256) as u8, 9]));
    let mut out = Cursor::new(Vec::new());
    DynamicImage::ImageRgb8(img).write_to(&mut out, ImageFormat::Png).unwrap();
    out.into_inner()
}

#[test]
fn a_job_over_three_files_from_listing_to_report() {
    let mut directory = vec![
        ("/mnt/efs/photos/a.png".to_string(), png(16, 16)),
        ("/mnt/efs/photos/b.png".to_string(), png(32, 8)),
        ("/mnt/efs/photos/c.png".to_string(), png(20, 30)),
    ];
    let list = |directory: &Vec<(String, Vec<u8>)>| -> Vec<DirEntryInfo> {
        directory
            .iter()
            .map(|(path, bytes)| DirEntryInfo { path: path.clone(), is_file: true, size: bytes.len() as u64 })
            .collect()
    };
    let (root, request) = match dispatch("photos", "down", 2, "tri") {
        Dispatch::Run { root_dir, request } => (root_dir, request),
        other => panic!("no job was planned: {:?}", other),
    };
    assert_eq!(root, "/mnt/efs/photos");
    let before = walk_efs(&list(&directory));
    let before_total: usize = directory.iter().map(|(_, bytes)| bytes.len()).sum();
    assert_eq!(before.size, format!("{} bytes", before_total));
    assert_eq!(before.files.len(), 3);
    for path in &before.files {
        let slot = directory.iter_mut().find(|(p, _)| p == path).unwrap();
        let done = scale_down(path, &slot.1, request.get_factor(), request.get_filter()).unwrap();
        slot.1 = done.bytes;
    }
    let after = walk_efs(&list(&directory));
    let after_total: usize = directory.iter().map(|(_, bytes)| bytes.len()).sum();
    assert!(after_total < before_total);
    let report = Response::new(request.get_op(), &before, &after, &Elapsed::new(0, 42_000).unwrap());
    assert_eq!(report.time, "Scale down took 42 µs");
    assert_eq!(
        report.size,
        format!("Init dir size: {} bytes --> Scaled dir size: {} bytes.", before_total, after_total)
    );
}

#[test]
fn files_of_one_two_and_three_hundred_bytes_report_six_hundred() {
    let listing = vec![
        DirEntryInfo { path: "a.png".to_string(), is_file: true, size: 100 },
        DirEntryInfo { path: "b.png".to_string(), is_file: true, size: 200 },
        DirEntryInfo { path: "c.png".to_string(), is_file: true, size: 300 },
    ];
    let before = walk_efs(&listing);
    assert_eq!(before.size, "600 bytes");
    let shrunk = vec![
        DirEntryInfo { path: "a.png".to_string(), is_file: true, size: 40 },
        DirEntryInfo { path: "b.png".to_string(), is_file: true, size: 70 },
        DirEntryInfo { path: "c.png".to_string(), is_file: true, size: 95 },
    ];
    let after = walk_efs(&shrunk);
    let report = Response::new(ScaleOp::Down, &before, &after, &Elapsed::new(2, 0).unwrap());
    assert_eq!(report.size, "Init dir size: 600 bytes --> Scaled dir size: 205 bytes.");
    assert_eq!(report.time, "Scale down took 2.00 s");
}
