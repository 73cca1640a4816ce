//! Repository sync records, scheduler decisions, state-file decisions and
//! content records.

use claudio::content::{
    copy_placeholder_text, ensure_slide_id, generate_copy_result, new_carousel, CarouselSlide,
    CopyRequest, SlideStyle,
};
use claudio::gitsync::{
    classify_merge, fast_forward_result, repo_status_of, short_commit_display, up_to_date_result,
    MergeDecision,
};
use claudio::projects::new_project;
use claudio::state::state_file_changed;
use claudio::tasks::{plan_assignments, status_stamp, StatusStamp};
use claudio::watcher::{debounce_ready, event_is_relevant, FsEventKind};

fn sample_request() -> CopyRequest {
    CopyRequest {
        copy_type: String::from("post"),
        topic: String::from("cats"),
        tone: String::from("witty"),
        length: String::from("short"),
        context: None,
        keywords: None,
        target_audience: None,
    }
}

fn sample_style() -> SlideStyle {
    SlideStyle {
        background_color: String::from("#fff"),
        text_color: String::from("#000"),
        font_size: String::from("16"),
        alignment: String::from("center"),
        font_weight: None,
        padding: None,
    }
}

#[test]
fn test_classify_merge_cases() {
    assert_eq!(classify_merge(true, false), MergeDecision::UpToDate);
    assert_eq!(classify_merge(true, true), MergeDecision::UpToDate);
    assert_eq!(classify_merge(false, true), MergeDecision::FastForward);
    assert_eq!(classify_merge(false, false), MergeDecision::ManualMergeRequired);
}

#[test]
fn test_sync_results() {
    let r = up_to_date_result(Some(String::from("abc123")));
    assert!(r.success);
    assert_eq!(r.message, "Already up to date");
    assert_eq!(r.previous_commit.as_deref(), Some("abc123"));
    assert_eq!(r.current_commit.as_deref(), Some("abc123"));
    assert_eq!(r.files_changed, 0);

    let r = fast_forward_result(Some(String::from("abc")), Some(String::from("def")));
    assert!(r.success);
    assert_eq!(r.message, "Successfully pulled latest changes");
    assert_eq!(r.previous_commit.as_deref(), Some("abc"));
    assert_eq!(r.current_commit.as_deref(), Some("def"));
}

#[test]
fn test_short_commit_display() {
    assert_eq!(short_commit_display("0123456789abcdef"), "0123456");
    assert_eq!(short_commit_display("0123"), "0123");
    assert_eq!(short_commit_display(""), "");
}

#[test]
fn test_repo_status_of() {
    let s = repo_status_of(String::from("main"), String::from("0123456"), true);
    assert_eq!(s.branch, "main");
    assert_eq!(s.commit, "0123456");
    assert!(s.has_changes);
    assert_eq!((s.ahead, s.behind), (0, 0));
}

#[test]
fn test_state_file_changed() {
    assert!(state_file_changed(None, 10));
    assert!(state_file_changed(Some(9), 10));
    assert!(!state_file_changed(Some(10), 10));
}

#[test]
fn test_event_relevance() {
    assert!(event_is_relevant(&FsEventKind::Create));
    assert!(event_is_relevant(&FsEventKind::Remove));
    assert!(event_is_relevant(&FsEventKind::Modify));
    assert!(!event_is_relevant(&FsEventKind::Other));
}

#[test]
fn test_debounce_ready() {
    assert!(!debounce_ready(None, 1000, 500));
    assert!(!debounce_ready(Some(800), 1000, 500));
    assert!(debounce_ready(Some(500), 1000, 500));
    assert!(debounce_ready(Some(0), 1000, 500));
}

#[test]
fn test_status_stamp() {
    assert_eq!(status_stamp("running"), StatusStamp::Started);
    assert_eq!(status_stamp("completed"), StatusStamp::Completed);
    assert_eq!(status_stamp("failed"), StatusStamp::Completed);
    assert_eq!(status_stamp("cancelled"), StatusStamp::Completed);
    assert_eq!(status_stamp("pending"), StatusStamp::Untouched);
    assert_eq!(status_stamp(""), StatusStamp::Untouched);
}

#[test]
fn test_plan_assignments_pairs() {
    let pending = vec![String::from("t1"), String::from("t2"), String::from("t3")];
    let idle = vec![String::from("a1"), String::from("a2")];
    let pairs = plan_assignments(&pending, &idle);
    assert_eq!(pairs.len(), 2);
    assert_eq!(pairs[0].task_id, "t1");
    assert_eq!(pairs[0].agent_id, "a1");
    assert_eq!(pairs[1].task_id, "t2");
    assert_eq!(pairs[1].agent_id, "a2");
    let none = plan_assignments(&pending, &Vec::new());
    assert!(none.is_empty());
}

#[test]
fn test_copy_placeholder_text() {
    let text = copy_placeholder_text(&sample_request());
    assert_eq!(text, "Generated post about \"cats\" in witty tone (short length).");
}

#[test]
fn test_generate_copy_result() {
    let r = generate_copy_result(sample_request(), 1234);
    assert_eq!(r.id.len(), 36);
    assert_eq!(r.content, "Generated post about \"cats\" in witty tone (short length).");
    assert!(r.variations.is_empty());
    assert_eq!(r.created_at, 1234);
    assert_eq!(r.rating, None);
}

#[test]
fn test_new_carousel() {
    let c = new_carousel(String::from("Launch"), String::from("linkedin"), 55);
    assert_eq!(c.id.len(), 36);
    assert_eq!(c.title, "Launch");
    assert_eq!(c.platform, "linkedin");
    assert_eq!(c.status, "draft");
    assert_eq!(c.project_id, None);
    assert_eq!(c.created_at, 55);
    assert_eq!(c.updated_at, 55);
    assert!(c.slides.is_empty());
}

#[test]
fn test_ensure_slide_id() {
    let keep = ensure_slide_id(CarouselSlide {
        id: String::from("slide-1"),
        slide_type: String::from("title"),
        content: String::from("Hi"),
        image_url: None,
        style: sample_style(),
        order: 0,
    });
    assert_eq!(keep.id, "slide-1");
    let drawn = ensure_slide_id(CarouselSlide {
        id: String::new(),
        slide_type: String::from("body"),
        content: String::from("Text"),
        image_url: None,
        style: sample_style(),
        order: 1,
    });
    assert_eq!(drawn.id.len(), 36);
    assert_eq!(drawn.slide_type, "body");
    assert_eq!(drawn.order, 1);
}

#[test]
fn test_new_project_record() {
    let p = new_project(
        String::from("id-1"),
        String::from("demo"),
        String::from("/tmp/demo"),
        String::from("code"),
        Some(String::from("git@example.com:demo.git")),
        77,
    );
    assert_eq!(p.id, "id-1");
    assert_eq!(p.name, "demo");
    assert_eq!(p.path, "/tmp/demo");
    assert_eq!(p.project_type, "code");
    assert_eq!(p.description, None);
    assert_eq!(p.git_remote.as_deref(), Some("git@example.com:demo.git"));
    assert_eq!(p.last_opened, 77);
    assert_eq!(p.created_at, 77);
    assert!(p.tags.is_empty());
    assert_eq!(p.settings.default_branch, None);
    assert_eq!(p.settings.auto_commit, None);
}
