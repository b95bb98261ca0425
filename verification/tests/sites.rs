use webshield::api::models::sites::{ServerFileSite, SitesListInner};
use webshield::commands::sites::{
    bucket_message, bucket_step, delete_chunks, etag_of, first_site, make_batches, plan_publish,
    publish_step, publish_summary, site_needle, site_ref, upload_part, upload_parts, BucketStep,
    LocalFile, PublishStep, SiteRef, BUCKET_POLL_MAX_ATTEMPTS,
};
use webshield::i18n::Lang;

fn files(n: usize, size: u64, stem: &str) -> Vec<(String, u64)> {
    (0..n).map(|i| (format!("{stem}{i}.txt"), size)).collect()
}

fn sizes(b: &[Vec<(String, u64)>]) -> Vec<usize> {
    b.iter().map(Vec::len).collect()
}

fn server(entries: &[(&str, Option<&str>, bool)]) -> Vec<ServerFileSite> {
    entries
        .iter()
        .map(|(p, e, d)| ServerFileSite {
            path: p.to_string(),
            etag: e.map(|x| x.to_string()),
            is_dir: *d,
        })
        .collect()
}

fn local(entries: &[(&str, &str)]) -> Vec<LocalFile> {
    entries
        .iter()
        .map(|(p, e)| LocalFile { path: p.to_string(), etag: e.to_string() })
        .collect()
}

fn site(status: Option<&str>, version: Option<i64>, err: Option<&str>) -> SitesListInner {
    SitesListInner {
        id: 5,
        hostname: "s".to_string(),
        domain_name: None,
        status: status.map(|s| s.to_string()),
        content_version: version,
        size_bytes: None,
        publish_error: err.map(|s| s.to_string()),
    }
}

#[test]
fn sites_make_batches_splits_by_file_count() {
    let batches = make_batches(files(250, 0, "f"));
    assert_eq!(sizes(&batches), vec![100, 100, 50]);
}

#[test]
fn tests_make_batches_splits_by_file_count() {
    let batches = make_batches(files(250, 0, "f"));
    assert_eq!(sizes(&batches), vec![100, 100, 50]);
}

#[test]
fn sites_make_batches_splits_by_total_size() {
    let batches = make_batches(files(3, 20 * 1024 * 1024, "big"));
    assert_eq!(sizes(&batches), vec![1, 1, 1]);
}

#[test]
fn tests_make_batches_splits_by_total_size() {
    let batches = make_batches(files(3, 20 * 1024 * 1024, "big"));
    assert_eq!(sizes(&batches), vec![1, 1, 1]);
}

#[test]
fn sites_make_batches_of_nothing_is_empty() {
    assert!(make_batches(Vec::new()).is_empty());
}

#[test]
fn tests_make_batches_of_nothing_is_empty() {
    assert!(make_batches(Vec::new()).is_empty());
}

#[test]
fn make_batches_keeps_order_and_packs_small_files_together() {
    let input = vec![
        ("a".to_string(), 10u64),
        ("b".to_string(), 20 * 1024 * 1024),
        ("c".to_string(), 12 * 1024 * 1024),
        ("d".to_string(), 1),
        ("e".to_string(), 40 * 1024 * 1024),
    ];
    let batches = make_batches(input.clone());
    // a+b+c = 32 MiB + 10 bytes > 32 MiB: c starts a new batch; e alone exceeds it.
    assert_eq!(sizes(&batches), vec![2, 2, 1]);
    let flat: Vec<(String, u64)> = batches.into_iter().flatten().collect();
    assert_eq!(flat, input);
}

#[test]
fn publish_uploads_changed_deletes_vanished() {
    let same = etag_of(b"unchanged");
    let server = server(&[
        ("index.html", Some("0000stale0000"), false),
        ("same.txt", Some(&same), false),
        ("old.txt", Some("aaaa"), false),
        ("css", None, true),
    ]);
    let local = local(&[
        ("index.html", &etag_of(b"<html>new</html>")),
        ("css/app.css", &etag_of(b"body{}")),
        ("same.txt", &same),
    ]);
    let plan = plan_publish(&server, &local);
    assert_eq!(plan.to_upload, vec!["css/app.css".to_string(), "index.html".to_string()]);
    assert_eq!(plan.to_delete, vec!["old.txt".to_string()]);
    assert_eq!((plan.local_count, plan.server_count, plan.unchanged), (3, 3, 1));
    assert_eq!(publish_step(&plan, false), PublishStep::Apply);
    assert_eq!(publish_step(&plan, true), PublishStep::DryRun);
    assert_eq!(
        publish_summary(Lang::En, 5, &plan),
        "Site #5: local 3, server 3 — upload 2, delete 1, unchanged 1."
    );
}

#[test]
fn publish_skips_snapshot_when_nothing_changed() {
    let e = etag_of(b"stable");
    let plan = plan_publish(&server(&[("index.html", Some(&e), false)]), &local(&[("index.html", &e)]));
    assert!(plan.to_upload.is_empty() && plan.to_delete.is_empty());
    assert_eq!(publish_step(&plan, false), PublishStep::NoChanges);
}

#[test]
fn publishing_twice_changes_nothing_the_second_time() {
    let local = local(&[("b.txt", "22"), ("a.txt", "11")]);
    let first = plan_publish(&server(&[("a.txt", Some("00"), false), ("z.txt", None, false)]), &local);
    assert_eq!(first.to_upload, vec!["a.txt".to_string(), "b.txt".to_string()]);
    assert_eq!(first.to_delete, vec!["z.txt".to_string()]);
    // The draft after applying the plan holds exactly the local files.
    let after = server(&[("a.txt", Some("11"), false), ("b.txt", Some("22"), false)]);
    let second = plan_publish(&after, &local);
    assert!(second.to_upload.is_empty() && second.to_delete.is_empty());
}

#[test]
fn a_path_listed_twice_counts_once_with_its_last_etag() {
    let plan = plan_publish(
        &server(&[("a", Some("1"), false), ("a", Some("2"), false)]),
        &local(&[("a", "2")]),
    );
    assert!(plan.to_upload.is_empty());
    assert_eq!(plan.server_count, 1);
}

#[test]
fn etag_is_the_hex_md5() {
    assert_eq!(etag_of(b""), "d41d8cd98f00b204e9800998ecf8427e");
    assert_eq!(etag_of(b"abc"), "900150983cd24fb0d6963f7d28e17f72");
}

#[test]
fn upload_parts_name_the_file_and_guess_its_type() {
    let p = upload_part("css/app.css");
    assert_eq!(p.path, "css/app.css");
    assert_eq!(p.file_name, "app.css");
    assert_eq!(p.content_type, "text/css");
    let p = upload_part("index.html");
    assert_eq!(p.file_name, "index.html");
    assert_eq!(p.content_type, "text/html");
    assert_eq!(upload_part("LICENSE").content_type, "application/octet-stream");
    let parts = upload_parts(&[("a/b/c.txt".to_string(), 1), ("d".to_string(), 2)]);
    assert_eq!(parts.len(), 2);
    assert_eq!(parts[0].file_name, "c.txt");
    assert_eq!(parts[1].path, "d");
}

#[test]
fn delete_requests_hold_at_most_five_hundred_paths() {
    let paths: Vec<String> = (0..1001).map(|i| format!("p{i}")).collect();
    let chunks = delete_chunks(&paths);
    assert_eq!(chunks.iter().map(Vec::len).collect::<Vec<_>>(), vec![500, 500, 1]);
    assert_eq!(chunks[2][0], "p1000");
    assert!(delete_chunks(&[]).is_empty());
}

#[test]
fn bucket_publish_polls_until_active() {
    assert!(matches!(bucket_step(0, None), BucketStep::Poll));
    let publishing = site(Some("publishing"), None, None);
    assert!(matches!(bucket_step(1, Some(&publishing)), BucketStep::Poll));
    assert!(matches!(
        bucket_step(BUCKET_POLL_MAX_ATTEMPTS, Some(&publishing)),
        BucketStep::TimedOut
    ));
    let active = site(Some("active"), Some(7), None);
    let step = bucket_step(2, Some(&active));
    assert!(matches!(&step, BucketStep::Published(v) if v == "7"));
    assert_eq!(
        bucket_message(Lang::En, &step).unwrap(),
        "published from bucket (version 7)."
    );
}

#[test]
fn bucket_publish_surfaces_publish_error() {
    let failed = site(Some("disabled"), None, Some("boom"));
    let step = bucket_step(1, Some(&failed));
    assert!(matches!(&step, BucketStep::Failed(e) if e == "boom"));
    assert!(bucket_message(Lang::En, &step).unwrap().contains("boom"));
}

#[test]
fn site_reference_prefers_the_id() {
    assert!(matches!(site_ref(Some(6), Some("x".into())), Some(SiteRef::Id(6))));
    assert!(matches!(site_ref(None, Some("x".into())), Some(SiteRef::Host(h)) if h == "x"));
    assert!(site_ref(None, None).is_none());
}

#[test]
fn site_lookup_trims_and_lowercases() {
    assert_eq!(site_needle("  WWW.Example.com "), "www.example.com");
    let err = first_site(Lang::En, "nope.example.com", Vec::new()).err().unwrap();
    assert_eq!(err, "static site `nope.example.com` not found");
    let found = first_site(Lang::En, "s", vec![site(None, None, None)]).unwrap();
    assert_eq!(found.id, 5);
}
