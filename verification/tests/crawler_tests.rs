//! The crawl pipeline: input normalisation, the builder, the stage URLs,
//! the fetch headers, and the submission of per-item jobs.

use pixiv_crawler::{Crawler, CrawlerBuilder};

#[test]
fn build_test() {
    let builder = Crawler::builder().uuid("1").cookie("2").path("").proxy("");
    let crawler = builder.build("/home/user/Downloads");
    assert_eq!(crawler.uuid(), "1");
    assert_eq!(crawler.cookie(), "2");
    assert_eq!(crawler.save_path(), "/home/user/Downloads/1");
    assert!(crawler.proxy().is_none());
    let builder = Crawler::builder()
        .uuid("1")
        .cookie("2")
        .path("E://picture")
        .proxy("http://127.0.0.1:7890");
    let crawler = builder.build("/home/user/Downloads");
    assert_eq!(crawler.uuid(), "1");
    assert_eq!(crawler.cookie(), "2");
    assert_eq!(crawler.save_path(), "E://picture/1");
    assert!(crawler.proxy().is_some());
}

#[test]
fn new_trims_every_input() {
    let crawler = Crawler::new(" 42 ", "\tsession=abc \n", "  /data ", " http://127.0.0.1:7890 ", "/dl");
    assert_eq!(crawler.uuid(), "42");
    assert_eq!(crawler.cookie(), "session=abc");
    assert_eq!(crawler.save_path(), "/data/42");
    assert_eq!(crawler.proxy(), Some("http://127.0.0.1:7890".to_owned()));
}

#[test]
fn empty_path_falls_back_to_default_dir() {
    let crawler = Crawler::new("7", "c", "   ", "", "/dl");
    assert_eq!(crawler.save_path(), "/dl/7");
}

#[test]
fn whitespace_proxy_means_none() {
    let crawler = Crawler::new("7", "c", "/data", "  \t ", "/dl");
    assert!(crawler.proxy().is_none());
}

#[test]
fn builder_without_optional_inputs() {
    let builder = CrawlerBuilder::new().uuid(" 9 ").cookie("k");
    let crawler = builder.build("/dl");
    assert_eq!(crawler.uuid(), "9");
    assert_eq!(crawler.save_path(), "/dl/9");
    assert!(crawler.proxy().is_none());
}

#[test]
fn stage_urls_are_exact() {
    let crawler = Crawler::new("1960050", "c", "/data", "", "/dl");
    assert_eq!(
        crawler.user_ajax(),
        "https://www.pixiv.net/ajax/user/1960050/profile/all?lang=zh"
    );
    assert_eq!(
        crawler.illu_ajax("100"),
        "https://www.pixiv.net/ajax/illust/100/pages?lang=zh"
    );
}

#[test]
fn headers_carry_cookie_referer_and_agent() {
    let crawler = Crawler::new("1", "session=xyz", "/data", "", "/dl");
    let headers = crawler.headers("55");
    assert_eq!(headers.len(), 3);
    assert_eq!(headers[0].name, "cookie");
    assert_eq!(headers[0].value, "session=xyz");
    assert_eq!(headers[1].name, "referer");
    assert_eq!(headers[1].value, "https://www.pixiv.net/artworks/55");
    assert_eq!(headers[2].name, "user-agent");
    assert!(headers[2].value.starts_with("Mozilla/5.0"));
}

#[test]
fn run_submits_one_job_per_item() {
    let mut crawler = Crawler::new("1", "c", "/data", "", "/dl");
    let ids = vec!["10".to_owned(), "11".to_owned()];
    let jobs = crawler.run(&ids).unwrap();
    assert_eq!(jobs.len(), 2);
    assert_eq!(jobs[0].url, "https://www.pixiv.net/ajax/illust/10/pages?lang=zh");
    assert_eq!(jobs[1].url, "https://www.pixiv.net/ajax/illust/11/pages?lang=zh");
    assert_eq!(jobs[0].path, "/data/1");
    assert_eq!(jobs[1].headers[1].value, "https://www.pixiv.net/artworks/11");
    assert_eq!(crawler.process(), "0/2");
    crawler.task_finished(true);
    assert_eq!(crawler.process(), "1/2");
}

#[test]
fn run_after_shutdown_fails_and_submits_nothing() {
    let mut crawler = Crawler::new("1", "c", "/data", "", "/dl");
    crawler.shutdown();
    let ids = vec!["10".to_owned()];
    assert!(crawler.run(&ids).is_err());
    assert_eq!(crawler.process(), "0/0");
}

#[test]
fn run_with_no_items_submits_nothing() {
    let mut crawler = Crawler::new("1", "c", "/data", "", "/dl");
    let jobs = crawler.run(&Vec::new()).unwrap();
    assert!(jobs.is_empty());
    assert_eq!(crawler.process(), "0/0");
}
