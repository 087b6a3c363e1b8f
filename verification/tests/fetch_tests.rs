//! Stage-3 behaviour: destination paths, the skip of files already on
//! disk, and the retry loop's convergence.

use pixiv_crawler::fetch::{fetch_attempts, plan_fetches, resource_path};

#[test]
fn resource_path_takes_last_url_segment() {
    assert_eq!(
        resource_path("/data/1", "https://i.pximg.net/img/0001_p0.jpg"),
        "/data/1/0001_p0.jpg"
    );
    assert_eq!(resource_path("/data/1", "no-slashes"), "/data/1/no-slashes");
    assert_eq!(resource_path("/data/1", "ends/with/"), "/data/1/");
}

#[test]
fn plan_skips_resources_already_on_disk() {
    let urls = vec![
        "https://i.pximg.net/img/a.jpg".to_owned(),
        "https://i.pximg.net/img/b.jpg".to_owned(),
    ];
    let on_disk = vec![true, false];
    let plan = plan_fetches("/data/1", &urls, &on_disk);
    assert_eq!(plan.len(), 2);
    assert_eq!(plan[0].path, "/data/1/a.jpg");
    assert!(!plan[0].fetch);
    assert_eq!(plan[1].path, "/data/1/b.jpg");
    assert!(plan[1].fetch);
    let fetches = plan.iter().filter(|a| a.fetch).count();
    assert_eq!(fetches, 1);
}

#[test]
fn rerun_with_everything_on_disk_fetches_nothing() {
    let urls = vec![
        "https://i.pximg.net/img/a.jpg".to_owned(),
        "https://i.pximg.net/img/b.jpg".to_owned(),
    ];
    let first = plan_fetches("/data/1", &urls, &vec![false, false]);
    let second = plan_fetches("/data/1", &urls, &vec![true, true]);
    assert_eq!(first.len(), second.len());
    for (a, b) in first.iter().zip(second.iter()) {
        assert_eq!(a.path, b.path);
        assert!(!b.fetch);
    }
}

#[test]
fn retry_stops_at_first_success() {
    assert_eq!(fetch_attempts(&vec![true]), Some(1));
    assert_eq!(fetch_attempts(&vec![false, false, false, true]), Some(4));
    assert_eq!(fetch_attempts(&vec![false, false, true, true]), Some(3));
}

#[test]
fn retry_outlasts_any_run_of_failures() {
    assert_eq!(fetch_attempts(&Vec::new()), None);
    assert_eq!(fetch_attempts(&vec![false; 100]), None);
}
