use sync_toolkit::{download, download_async};

#[test]
fn download_reports_success() {
    assert!(download("https://course.rs"));
    assert!(download("https://fancy.rs"));
}

#[test]
fn download_async_has_no_observable_effect() {
    download_async("https://www.foo.com");
    download_async("https://www.bar.com");
}
