use jamrock_admin::updater::{
    launch_precheck, percent_of, update_filename, DownloadSession,
};

#[test]
fn percent_is_zero_while_total_unknown() {
    assert_eq!(percent_of(0, 0), 0);
    assert_eq!(percent_of(1, 0), 0);
    assert_eq!(percent_of(123_456_789, 0), 0);
    assert_eq!(percent_of(u64::MAX, 0), 0);
}

#[test]
fn percent_exact_values() {
    assert_eq!(percent_of(0, 10), 0);
    assert_eq!(percent_of(5, 10), 47);
    assert_eq!(percent_of(10, 10), 95);
    assert_eq!(percent_of(1, 3), 31);
    assert_eq!(percent_of(1_048_576, 10_485_760), 9);
}

#[test]
fn percent_is_capped_at_95() {
    assert_eq!(percent_of(20, 10), 95);
    assert_eq!(percent_of(u64::MAX, 1), 95);
}

#[test]
fn begin_rejects_non_success_status() {
    let r = DownloadSession::begin(404, Some(100));
    assert_eq!(
        r.err().unwrap(),
        "Error HTTP 404 al descargar el instalador"
    );
    assert!(DownloadSession::begin(500, None).is_err());
    assert!(DownloadSession::begin(199, Some(1)).is_err());
    assert!(DownloadSession::begin(300, Some(1)).is_err());
    assert!(DownloadSession::begin(301, Some(1)).is_err());
}

#[test]
fn begin_accepts_success_status() {
    assert!(DownloadSession::begin(200, Some(100)).is_ok());
    assert!(DownloadSession::begin(204, None).is_ok());
    assert!(DownloadSession::begin(299, Some(0)).is_ok());
}

#[test]
fn ten_equal_chunks_reach_95_percent() {
    let total: u64 = 10_485_760;
    let chunk: u64 = 1_048_576;
    let mut session = DownloadSession::begin(200, Some(total)).unwrap();
    let mut percents = Vec::new();
    let mut last = None;
    for _ in 0..10 {
        let p = session.record_chunk(chunk);
        percents.push(p.percent);
        last = Some(p);
    }
    assert_eq!(percents, vec![9, 19, 28, 38, 47, 57, 66, 76, 85, 95]);
    let last = last.unwrap();
    assert_eq!(last.downloaded, total);
    assert_eq!(last.total, total);
    assert_eq!(last.message, "Descargando... 95%");
    assert_eq!(session.downloaded(), total);
}

#[test]
fn percents_never_decrease_and_never_pass_95() {
    let mut session = DownloadSession::begin(200, Some(1000)).unwrap();
    let mut prev = 0u32;
    for chunk in [1u64, 499, 7, 0, 493, 800] {
        let p = session.record_chunk(chunk);
        assert!(p.percent >= prev);
        assert!(p.percent <= 95);
        prev = p.percent;
    }
}

#[test]
fn unknown_total_reports_zero_percent_throughout() {
    let mut session = DownloadSession::begin(200, None).unwrap();
    for chunk in [5u64, 1_000_000, 123] {
        let p = session.record_chunk(chunk);
        assert_eq!(p.percent, 0);
        assert_eq!(p.total, 0);
        assert_eq!(p.message, "Descargando... 0%");
    }
    assert_eq!(session.downloaded(), 1_000_128);
}

#[test]
fn progress_message_carries_the_percent() {
    let mut session = DownloadSession::begin(200, Some(100)).unwrap();
    let p = session.record_chunk(50);
    assert_eq!(p.percent, 47);
    assert_eq!(p.message, "Descargando... 47%");
    assert_eq!(p.downloaded, 50);
    assert_eq!(p.total, 100);
}

#[test]
fn filenames_embed_the_timestamp() {
    assert_eq!(update_filename(0), "JamrockAdmin-update-0.exe");
    assert_eq!(
        update_filename(1_700_000_000),
        "JamrockAdmin-update-1700000000.exe"
    );
}

#[test]
fn distinct_timestamps_give_distinct_filenames() {
    let a = update_filename(1_700_000_000);
    let b = update_filename(1_700_000_001);
    assert_ne!(a, b);
    assert_ne!(update_filename(9), update_filename(90));
}

#[test]
fn launch_precheck_requires_an_existing_file() {
    let r = launch_precheck("C:/missing/installer.exe", false);
    assert_eq!(
        r.err().unwrap(),
        "El instalador no existe en: C:/missing/installer.exe"
    );
    assert!(launch_precheck("anything", true).is_ok());
}
