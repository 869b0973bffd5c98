use std::path::Path;

use assist_rs::data::{
    default_data_dir, default_kernels, next_cache_action, stored_bytes, parse_u64, remote_changed, CacheAction,
    CacheEvent, DownloadReason, FileMeta,
};
use assist_rs::{DataError, DataManager};

#[test]
fn every_default_kernel_has_a_path_field() {
    let dm = DataManager::with_dir("/tmp/check");
    let paths = dm.paths();
    let all_paths = [
        &paths.planets,
        &paths.asteroids,
        &paths.obscodes,
        &paths.eop_high_prec,
        &paths.eop_historical,
        &paths.eop_predict,
    ];
    let kernels = default_kernels();
    for entry in &kernels {
        let expected = Path::new(dm.data_dir()).join(entry.filename);
        assert!(
            all_paths.iter().any(|p| Path::new(p.as_str()) == expected.as_path()),
            "kernel {:?} in DEFAULT_KERNELS has no corresponding field in AssistDataPaths",
            entry.filename
        );
    }
    // And the reverse: every returned path must correspond to a declared
    // kernel (guards against dangling fields).
    for p in all_paths {
        let filename = Path::new(p.as_str()).file_name().unwrap().to_str().unwrap();
        assert!(
            kernels.iter().any(|e| e.filename == filename),
            "AssistDataPaths field points at {filename:?}, which is not in DEFAULT_KERNELS"
        );
    }
}

#[test]
fn eop_kernels_returns_spice_idiomatic_load_order() {
    // predict → historical → current, so the high-precision kernel wins
    // at epochs it covers (last-in-wins).
    let dm = DataManager::with_dir("/tmp/check");
    let paths = dm.paths();
    let kernels = paths.eop_kernels();
    assert_eq!(kernels[0], &paths.eop_predict);
    assert_eq!(kernels[1], &paths.eop_historical);
    assert_eq!(kernels[2], &paths.eop_high_prec);
}

#[test]
fn paths_are_joined_under_the_data_dir() {
    let dm = DataManager::with_dir("/data/cache");
    assert_eq!(dm.data_dir(), "/data/cache");
    let p = dm.paths();
    assert_eq!(p.planets, "/data/cache/de440.bsp");
    assert_eq!(p.asteroids, "/data/cache/sb441-n16.bsp");
    assert_eq!(p.obscodes, "/data/cache/obscodes_extended.json");
    assert_eq!(p.eop_high_prec, "/data/cache/earth_latest_high_prec.bpc");
    assert_eq!(p.eop_historical, "/data/cache/earth_620120_250826.bpc");
    assert_eq!(p.eop_predict, "/data/cache/earth_2025_250826_2125_predict.bpc");
    assert_eq!(DataManager::with_dir("/a/").kernel_path(&default_kernels()[0]), "/a/de440.bsp");
    assert_eq!(dm.kernel_path(&default_kernels()[2]), "/data/cache/obscodes_extended.json");
}

#[test]
fn catalog_marks_gzipped_and_changing_files() {
    let k = default_kernels();
    assert_eq!(k.len(), 6);
    assert_eq!(k[0].filename, "de440.bsp");
    assert!(k[2].gzipped && !k[2].is_static);
    assert!(k[2].url.ends_with(".json.gz"));
    assert!(!k[3].is_static && !k[3].gzipped);
    for i in [0usize, 1, 4, 5] {
        assert!(k[i].is_static && !k[i].gzipped);
    }
}

#[test]
fn offline_succeeds_only_with_every_file_present() {
    let dm = DataManager::with_dir("/tmp/check");
    let paths = dm.offline(&[true; 6]).unwrap();
    assert_eq!(paths.planets, dm.paths().planets);

    match dm.offline(&[true, false, true, true, false, true]) {
        Err(DataError::MissingFiles(files)) => {
            assert_eq!(files, vec!["sb441-n16.bsp".to_string(), "earth_620120_250826.bpc".to_string()]);
        }
        other => panic!("expected MissingFiles, got {other:?}"),
    }
    // Unreported files count as absent.
    match dm.offline(&[true, true, true]) {
        Err(DataError::MissingFiles(files)) => assert_eq!(files.len(), 3),
        other => panic!("expected MissingFiles, got {other:?}"),
    }
}

#[test]
fn data_error_messages() {
    let e = DataError::MissingFiles(vec!["a.bsp".to_string(), "b.json".to_string()]);
    assert_eq!(e.message(), "missing data files: a.bsp, b.json");
    assert_eq!(DataError::Http("boom".to_string()).message(), "HTTP error: boom");
    let io = DataError::Io(std::io::Error::new(std::io::ErrorKind::Other, "disk"));
    assert_eq!(io.message(), "I/O error: disk");
}

#[test]
fn cache_refresh_decisions() {
    let k = default_kernels();
    let stat = &k[0];
    let changing = &k[2];
    assert_eq!(
        next_cache_action(stat, CacheEvent::FileExists(false)),
        CacheAction::Download(DownloadReason::Missing)
    );
    assert_eq!(next_cache_action(stat, CacheEvent::FileExists(true)), CacheAction::ReadSidecar);
    assert_eq!(next_cache_action(stat, CacheEvent::SidecarFound(false)), CacheAction::Keep);
    assert_eq!(next_cache_action(stat, CacheEvent::SidecarFound(true)), CacheAction::CompareMd5);
    assert_eq!(
        next_cache_action(stat, CacheEvent::Md5Agrees(false)),
        CacheAction::Download(DownloadReason::Md5Mismatch)
    );
    assert_eq!(next_cache_action(stat, CacheEvent::Md5Agrees(true)), CacheAction::Keep);
    assert_eq!(next_cache_action(changing, CacheEvent::Md5Agrees(true)), CacheAction::CheckRemote);
    assert_eq!(
        next_cache_action(changing, CacheEvent::RemoteChanged(true)),
        CacheAction::Download(DownloadReason::RemoteChanged)
    );
    assert_eq!(next_cache_action(changing, CacheEvent::RemoteChanged(false)), CacheAction::Keep);
}

fn meta(len: Option<u64>, modified: Option<&str>) -> FileMeta {
    FileMeta {
        url: "https://example.com/kernel.bsp".to_string(),
        downloaded_at: 1_700_000_000,
        content_length: len,
        last_modified: modified.map(|s| s.to_string()),
        md5: "d41d8cd98f00b204e9800998ecf8427e".to_string(),
    }
}

#[test]
fn remote_changes_are_detected_only_when_known_on_both_sides() {
    let m = meta(Some(42), Some("Mon, 21 Oct 2024 12:00:00 GMT"));
    assert!(!remote_changed(&m, Some(42), Some("Mon, 21 Oct 2024 12:00:00 GMT")));
    assert!(remote_changed(&m, Some(43), Some("Mon, 21 Oct 2024 12:00:00 GMT")));
    assert!(remote_changed(&m, Some(42), Some("Tue, 22 Oct 2024 12:00:00 GMT")));
    assert!(!remote_changed(&m, None, None));
    assert!(!remote_changed(&meta(None, None), Some(1), Some("x")));
}

#[test]
fn header_values_parse_like_u64_from_str() {
    assert_eq!(parse_u64("42"), Some(42));
    assert_eq!(parse_u64("+7"), Some(7));
    assert_eq!(parse_u64("0"), Some(0));
    assert_eq!(parse_u64("18446744073709551615"), Some(u64::MAX));
    assert_eq!(parse_u64("18446744073709551616"), None);
    assert_eq!(parse_u64(""), None);
    assert_eq!(parse_u64("+"), None);
    assert_eq!(parse_u64("-1"), None);
    assert_eq!(parse_u64("12a"), None);
    assert_eq!(parse_u64(" 12"), None);
    for s in ["1", "+0012", "99999999999", "", "abc", "1e3"] {
        assert_eq!(parse_u64(s), s.parse::<u64>().ok(), "input {s:?}");
    }
}

#[test]
fn default_data_dir_prefers_assist_then_xdg_then_home() {
    assert_eq!(
        default_data_dir(Some("/data/assist"), Some("/xdg"), Some("/home/u")).as_deref(),
        Some("/data/assist")
    );
    assert_eq!(
        default_data_dir(None, Some("/xdg"), Some("/home/u")).as_deref(),
        Some("/xdg/assist-rs")
    );
    assert_eq!(
        default_data_dir(None, None, Some("/home/u")).as_deref(),
        Some("/home/u/.cache/assist-rs")
    );
    assert_eq!(default_data_dir(None, None, None), None);
}

#[test]
fn sidecars_sit_next_to_their_files() {
    let dm = DataManager::with_dir("/tmp/check");
    let kernels = default_kernels();
    assert_eq!(dm.sidecar_path(&kernels[0]), "/tmp/check/de440.bsp.meta.json");
    assert_eq!(
        dm.sidecar_path(&kernels[2]),
        "/tmp/check/obscodes_extended.json.meta.json"
    );
}

fn gzip(data: &[u8]) -> Vec<u8> {
    let mut e = flate2::write::GzEncoder::new(Vec::new(), flate2::Compression::default());
    std::io::Write::write_all(&mut e, data).unwrap();
    e.finish().unwrap()
}

#[test]
fn stored_bytes_keep_plain_bodies_and_decompress_gzipped_ones() {
    let payload = b"{\"500\": {\"Name\": \"Geocentric\"}}".to_vec();
    assert_eq!(stored_bytes(false, payload.clone()).unwrap(), payload);
    let packed = gzip(&payload);
    assert_ne!(packed, payload);
    assert_eq!(stored_bytes(true, packed.clone()).unwrap(), payload);
    // A plain body is stored as received even when it happens to be gzip.
    assert_eq!(stored_bytes(false, packed.clone()).unwrap(), packed);
}

#[test]
fn stored_bytes_reject_a_malformed_gzip_body() {
    assert!(matches!(stored_bytes(true, b"not gzip at all".to_vec()), Err(DataError::Io(_))));
    let packed = gzip(b"some longer payload that compresses");
    let half = packed[..packed.len() / 2].to_vec();
    assert!(matches!(stored_bytes(true, half), Err(DataError::Io(_))));
}
