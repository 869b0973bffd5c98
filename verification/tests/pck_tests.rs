use assist_rs::earth_orientation::{
    check_type2_layout, daf_record_offset, first_covering, summary_walk_step, directory_byte_offset, locate_record,
    parse_daf_header, parse_summaries, read_i32_le, read_u64_le, usable_segment, SegmentSummary,
    Type2Layout,
};

fn header(locidw: &[u8; 8], locfmt: &[u8; 8], nd: i32, ni: i32, fward: i32) -> Vec<u8> {
    let mut h = vec![0u8; 1024];
    h[0..8].copy_from_slice(locidw);
    h[8..12].copy_from_slice(&nd.to_le_bytes());
    h[12..16].copy_from_slice(&ni.to_le_bytes());
    h[76..80].copy_from_slice(&fward.to_le_bytes());
    h[88..96].copy_from_slice(locfmt);
    h
}

#[test]
fn reads_little_endian_integers() {
    let b = [0x78, 0x56, 0x34, 0x12, 0xff, 0xff, 0xff, 0xff, 0x01];
    assert_eq!(read_i32_le(&b, 0), 0x1234_5678);
    assert_eq!(read_i32_le(&b, 4), -1);
    assert_eq!(read_i32_le(&b, 5), i32::from_le_bytes([0xff, 0xff, 0xff, 0x01]));
    let x = 2451545.0f64;
    let bytes = x.to_le_bytes();
    assert_eq!(f64::from_bits(read_u64_le(&bytes, 0)), x);
}

#[test]
fn accepts_a_well_formed_pck_header() {
    let h = header(b"DAF/PCK ", b"LTL-IEEE", 2, 5, 4);
    let d = parse_daf_header(&h).unwrap();
    assert_eq!((d.nd, d.ni, d.fward, d.summary_bytes), (2, 5, 4, 40));
}

#[test]
fn rejects_bad_pck_headers() {
    let e = parse_daf_header(&header(b"DAF/SPK ", b"LTL-IEEE", 2, 5, 4)).unwrap_err();
    assert_eq!(e, "expected 'DAF/PCK' identifier, got \"DAF/SPK \"");
    let e = parse_daf_header(&header(b"DAF/PCK ", b"BIG-IEEE", 2, 5, 4)).unwrap_err();
    assert_eq!(e, "only LTL-IEEE byte order supported, got \"BIG-IEEE\"");
    let e = parse_daf_header(&header(b"DAF/PCK ", b"LTL-IEEE", 2, 6, 4)).unwrap_err();
    assert_eq!(e, "unexpected DAF/PCK (ND,NI); got (2,6), want (2,5)");
    let e = parse_daf_header(&header(&[0xff; 8], b"LTL-IEEE", 2, 5, 4)).unwrap_err();
    assert_eq!(e, "LOCIDW is not ASCII");
    let e = parse_daf_header(&header(b"DAF/PCK ", &[0xc3, 0x28, 0, 0, 0, 0, 0, 0], 2, 5, 4))
        .unwrap_err();
    assert_eq!(e, "LOCFMT is not ASCII");
}

#[test]
fn decodes_summaries_and_selects_earth_segments() {
    let mut rec = vec![0u8; 1024];
    let mut put = |off: usize, start: f64, stop: f64, ints: [i32; 5]| {
        rec[off..off + 8].copy_from_slice(&start.to_le_bytes());
        rec[off + 8..off + 16].copy_from_slice(&stop.to_le_bytes());
        for (k, v) in ints.iter().enumerate() {
            rec[off + 16 + 4 * k..off + 20 + 4 * k].copy_from_slice(&v.to_le_bytes());
        }
    };
    put(24, -1.0e9, 1.0e9, [3000, 17, 2, 641, 9000]);
    put(64, 0.0, 1.0, [301, 1, 2, 9001, 9100]);
    let s = parse_summaries(&rec, 2, 40);
    assert_eq!(s.len(), 2);
    assert_eq!(f64::from_bits(s[0].et_start_bits), -1.0e9);
    assert_eq!(f64::from_bits(s[0].et_stop_bits), 1.0e9);
    assert_eq!((s[0].body, s[0].frame, s[0].dtype, s[0].init_addr, s[0].final_addr), (3000, 17, 2, 641, 9000));
    assert!(usable_segment(&s[0]));
    assert!(!usable_segment(&s[1]));
    let other = SegmentSummary { dtype: 3, ..s[0] };
    assert!(!usable_segment(&other));
}

#[test]
fn type2_layout_checks() {
    assert_eq!(directory_byte_offset(9000), (9000 - 4) * 8);
    assert_eq!(daf_record_offset(1), 0);
    assert_eq!(daf_record_offset(3), 2048);
    // 10 records of 2 + 3·4 = 14 doubles plus the 4-word directory.
    let ok = check_type2_layout(641, 641 + 144 - 1, 14, 10, "k.bpc").unwrap();
    assert_eq!(ok, Type2Layout { ncoef: 4, rsize: 14, n_records: 10, records_byte: 640 * 8, total_bytes: 1120 });
    assert_eq!(
        check_type2_layout(1, 100, 13, 2, "k.bpc").unwrap_err(),
        "k.bpc: RSIZE - 2 = 11 is not divisible by 3"
    );
    assert_eq!(
        check_type2_layout(1, 100, 14, 10, "k.bpc").unwrap_err(),
        "k.bpc: segment size mismatch: 100 words, expected 144"
    );
}

#[test]
fn records_are_located_and_clamped() {
    let layout = Type2Layout { ncoef: 4, rsize: 14, n_records: 10, records_byte: 0, total_bytes: 1120 };
    let r = locate_record(3, &layout);
    assert_eq!((r.mid, r.radius, r.a1, r.a2, r.a3, r.ncoef), (42, 43, 44, 48, 52, 4));
    assert_eq!(locate_record(-5, &layout).mid, 0);
    assert_eq!(locate_record(10, &layout).mid, 9 * 14);
    assert_eq!(locate_record(i64::MAX, &layout).mid, 9 * 14);
}

#[test]
fn the_earliest_listed_covering_segment_wins() {
    assert_eq!(first_covering(&[false, true, true]), Some(1));
    assert_eq!(first_covering(&[true, true]), Some(0));
    assert_eq!(first_covering(&[false, false]), None);
    assert_eq!(first_covering(&[]), None);
}

#[test]
fn summary_walk_follows_the_chain_and_stops_at_its_end() {
    assert_eq!(summary_walk_step(&[2], 2, 3, 40, 5).unwrap(), (3, Some(5)));
    assert_eq!(summary_walk_step(&[2, 5], 5, 0, 40, 0).unwrap(), (0, None));
    assert_eq!(summary_walk_step(&[2], 2, 25, 40, -1).unwrap(), (25, None));
}

#[test]
fn summary_walk_refuses_overfull_records_and_loops() {
    assert_eq!(
        summary_walk_step(&[2], 2, 26, 40, 0).unwrap_err(),
        "summary record 2 declares 26 summaries, more than fit in a record"
    );
    assert_eq!(
        summary_walk_step(&[2], 2, u64::MAX, 40, 0).unwrap_err(),
        format!("summary record 2 declares {} summaries, more than fit in a record", u64::MAX)
    );
    assert_eq!(
        summary_walk_step(&[2, 7], 7, 1, 40, 7).unwrap_err(),
        "summary records loop back to record 7"
    );
    assert_eq!(
        summary_walk_step(&[2, 7], 7, 1, 40, 2).unwrap_err(),
        "summary records loop back to record 2"
    );
}

#[test]
fn high_precision_kernel_serves_only_where_the_others_do_not() {
    // Segments in eop_kernels() order: predict, historical, current.
    // An epoch covered by the historical and the current kernel.
    assert_eq!(first_covering(&[false, true, true]), Some(1));
    // An epoch covered by the predict and the current kernel.
    assert_eq!(first_covering(&[true, false, true]), Some(0));
    // An epoch only the current kernel covers.
    assert_eq!(first_covering(&[false, false, true]), Some(2));
}
