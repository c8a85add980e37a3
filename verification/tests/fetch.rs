use std::path::PathBuf;

use rusty_ytdl::{Video, VideoError};
use youtube_downloader::fetch::{
    advance, begin_download, download_outcome, output_file_name, plan_download, reject_source,
    start_fetch,
    DownloadPlan, FetchError, FetchReport, FetchStep, ResolvedSource, DOWNLOAD_SUBDIR,
    OUTPUT_EXTENSION,
};

const LOCATOR: &str = "https://www.youtube.com/watch?v=dQw4w9WgXcQ";

fn video() -> Video {
    Video::new(LOCATOR).unwrap()
}

fn planned(base: &str, title: &str) -> DownloadPlan {
    match plan_download(video(), Some(PathBuf::from(base)), title) {
        FetchStep::CreateDirectory(plan) => plan,
        other => panic!("expected the directory step, got {:?}", other),
    }
}

fn invalid_source() -> FetchStep {
    FetchStep::Finish(Err(FetchError::InvalidSource("VideoNotFound".to_string())))
}

#[test]
fn fixed_names() {
    assert_eq!(DOWNLOAD_SUBDIR, "Youtube-Downloader");
    assert_eq!(OUTPUT_EXTENSION, "mp4");
}

#[test]
fn file_name_is_title_dot_extension() {
    assert_eq!(output_file_name("song"), "song.mp4");
    assert_eq!(output_file_name("Artist - Track (Live)"), "Artist - Track (Live).mp4");
}

#[test]
fn file_name_leaves_the_title_unchanged() {
    assert_eq!(output_file_name(""), ".mp4");
    assert_eq!(output_file_name("a/b"), "a/b.mp4");
    assert_eq!(output_file_name("clip.mp4"), "clip.mp4.mp4");
}

#[test]
fn plan_joins_subdirectory_and_file_name() {
    let plan = planned("/home/alice/Downloads", "song");
    assert_eq!(plan.directory, PathBuf::from("/home/alice/Downloads/Youtube-Downloader"));
    assert_eq!(plan.file, PathBuf::from("/home/alice/Downloads/Youtube-Downloader/song.mp4"));
    assert_eq!(plan.video.get_video_id(), "dQw4w9WgXcQ");
}

#[test]
fn plan_without_downloads_location_ends_the_fetch() {
    let step = plan_download(video(), None, "song");
    assert_eq!(step, FetchStep::Finish(Err(FetchError::NoDownloadLocation)));
}

#[test]
fn same_title_aims_at_the_same_file() {
    let first = planned("/home/alice/Downloads", "song");
    let second = planned("/home/alice/Downloads", "song");
    assert_eq!(first.directory, second.directory);
    assert_eq!(first.file, second.file);
}

#[test]
fn rejected_source_holds_the_diagnostic() {
    assert_eq!(reject_source("VideoNotFound".to_string()), invalid_source());
    assert_eq!(
        reject_source(String::new()),
        FetchStep::Finish(Err(FetchError::InvalidSource(String::new())))
    );
}

#[test]
fn unresolved_locator_is_invalid_source() {
    let resolved = Video::new("not a locator");
    assert!(resolved.is_err());
    assert_eq!(start_fetch(resolved, "song"), invalid_source());
}

#[test]
fn any_resolver_error_is_invalid_source_with_its_debug_text() {
    let step = start_fetch(Err(VideoError::DownloadError("disk".to_string())), "song");
    assert_eq!(
        step,
        FetchStep::Finish(Err(FetchError::InvalidSource("DownloadError(\"disk\")".to_string())))
    );
}

#[test]
fn resolved_locator_leads_to_the_lookup() {
    match start_fetch(Video::new("dQw4w9WgXcQ"), "My Song") {
        FetchStep::LocateDownloads(source) => {
            assert_eq!(source.video.get_video_id(), "dQw4w9WgXcQ");
            assert_eq!(source.title, "My Song");
        }
        other => panic!("expected the lookup step, got {:?}", other),
    }
}

#[test]
fn begin_with_unresolved_locator_asks_for_no_work() {
    let step = begin_download("https://example.com/nothing", "song");
    assert_eq!(step, invalid_source());
    let after = advance(step, FetchReport::Downloads(Some(PathBuf::from("/home/alice"))));
    assert_eq!(after, invalid_source());
    let later = advance(after, FetchReport::Completed);
    assert_eq!(later, invalid_source());
}

#[test]
fn begin_takes_the_item_that_the_locator_names() {
    match begin_download(LOCATOR, "song") {
        FetchStep::LocateDownloads(source) => {
            assert_eq!(source.video.get_video_id(), "dQw4w9WgXcQ");
            assert_eq!(source.title, "song");
        }
        other => panic!("expected the lookup step, got {:?}", other),
    }
    match begin_download("https://youtu.be/9bZkp7q19f0", "other") {
        FetchStep::LocateDownloads(source) => {
            assert_eq!(source.video.get_video_id(), "9bZkp7q19f0");
            assert_eq!(source.title, "other");
        }
        other => panic!("expected the lookup step, got {:?}", other),
    }
}

#[test]
fn located_downloads_lead_to_the_directory() {
    let step = begin_download(LOCATOR, "song");
    let report = FetchReport::Downloads(Some(PathBuf::from("/home/alice/Downloads")));
    match advance(step, report) {
        FetchStep::CreateDirectory(plan) => {
            assert_eq!(plan.directory, PathBuf::from("/home/alice/Downloads/Youtube-Downloader"));
            assert_eq!(
                plan.file,
                PathBuf::from("/home/alice/Downloads/Youtube-Downloader/song.mp4")
            );
            assert_eq!(plan.video.get_video_id(), "dQw4w9WgXcQ");
        }
        other => panic!("expected the directory step, got {:?}", other),
    }
}

#[test]
fn platform_downloads_fit_the_lookup() {
    let step = begin_download(LOCATOR, "song");
    let downloads = dirs::download_dir();
    match (advance(step, FetchReport::Downloads(downloads.clone())), downloads) {
        (FetchStep::CreateDirectory(plan), Some(base)) => {
            assert_eq!(plan.directory, base.join("Youtube-Downloader"));
            assert_eq!(plan.file, base.join("Youtube-Downloader").join("song.mp4"));
        }
        (FetchStep::Finish(Err(FetchError::NoDownloadLocation)), None) => {}
        (step, base) => panic!("step {:?} does not fit downloads {:?}", step, base),
    }
}

#[test]
fn unknown_downloads_end_the_fetch() {
    let step = begin_download(LOCATOR, "song");
    assert_eq!(
        advance(step, FetchReport::Downloads(None)),
        FetchStep::Finish(Err(FetchError::NoDownloadLocation))
    );
}

#[test]
fn created_directory_leads_to_the_transfer() {
    let step = plan_download(video(), Some(PathBuf::from("/data/dl")), "song");
    match advance(step, FetchReport::Completed) {
        FetchStep::Transfer(plan) => {
            assert_eq!(plan.directory, PathBuf::from("/data/dl/Youtube-Downloader"));
            assert_eq!(plan.file, PathBuf::from("/data/dl/Youtube-Downloader/song.mp4"));
        }
        other => panic!("expected the transfer step, got {:?}", other),
    }
}

#[test]
fn failed_directory_ends_the_fetch() {
    let step = plan_download(video(), Some(PathBuf::from("/data/dl")), "song");
    let report = FetchReport::Failed("Os { code: 13, kind: PermissionDenied }".to_string());
    assert_eq!(
        advance(step, report),
        FetchStep::Finish(Err(FetchError::DirectoryCreation(
            "Os { code: 13, kind: PermissionDenied }".to_string()
        )))
    );
}

#[test]
fn completed_transfer_returns_the_file_path() {
    let step = FetchStep::Transfer(planned("/home/alice/Downloads", "song"));
    assert_eq!(
        advance(step, FetchReport::Completed),
        FetchStep::Finish(Ok("/home/alice/Downloads/Youtube-Downloader/song.mp4".to_string()))
    );
}

#[test]
fn failed_transfer_ends_the_fetch() {
    let step = FetchStep::Transfer(planned("/home/alice/Downloads", "song"));
    assert_eq!(
        advance(step, FetchReport::Failed("VideoSourceNotFound".to_string())),
        FetchStep::Finish(Err(FetchError::Download("VideoSourceNotFound".to_string())))
    );
}

#[test]
fn whole_fetch_in_three_reports() {
    let first = begin_download(LOCATOR, "My Song");
    let second = advance(first, FetchReport::Downloads(Some(PathBuf::from("/srv/media"))));
    let third = advance(second, FetchReport::Completed);
    let last = advance(third, FetchReport::Completed);
    assert_eq!(
        last,
        FetchStep::Finish(Ok("/srv/media/Youtube-Downloader/My Song.mp4".to_string()))
    );
}

#[test]
fn finished_fetch_stays_finished() {
    let done = FetchStep::Finish(Ok("/x/y.mp4".to_string()));
    assert_eq!(
        advance(done, FetchReport::Failed("late".to_string())),
        FetchStep::Finish(Ok("/x/y.mp4".to_string()))
    );
    let failed = FetchStep::Finish(Err(FetchError::NoDownloadLocation));
    assert_eq!(
        advance(failed, FetchReport::Completed),
        FetchStep::Finish(Err(FetchError::NoDownloadLocation))
    );
}

#[test]
fn a_report_that_is_no_answer_changes_nothing() {
    let lookup = FetchStep::LocateDownloads(ResolvedSource {
        video: video(),
        title: "song".to_string(),
    });
    match advance(lookup, FetchReport::Completed) {
        FetchStep::LocateDownloads(source) => assert_eq!(source.title, "song"),
        other => panic!("expected the lookup step, got {:?}", other),
    }
    let directory = FetchStep::CreateDirectory(planned("/data/dl", "song"));
    let report = FetchReport::Downloads(Some(PathBuf::from("/elsewhere")));
    assert_eq!(advance(directory, report), FetchStep::CreateDirectory(planned("/data/dl", "song")));
    let transfer = FetchStep::Transfer(planned("/data/dl", "song"));
    assert_eq!(
        advance(transfer, FetchReport::Downloads(None)),
        FetchStep::Transfer(planned("/data/dl", "song"))
    );
}

#[test]
fn absolute_title_replaces_the_directory() {
    let plan = planned("/home/alice/Downloads", "/tmp/elsewhere");
    assert_eq!(plan.directory, PathBuf::from("/home/alice/Downloads/Youtube-Downloader"));
    assert_eq!(plan.file, PathBuf::from("/tmp/elsewhere.mp4"));
}

#[test]
fn fetch_error_messages() {
    assert_eq!(
        FetchError::InvalidSource("VideoNotFound".to_string()).message(),
        "Object Error: VideoNotFound"
    );
    assert_eq!(
        FetchError::NoDownloadLocation.message(),
        "No se pudo obtener la carpeta de descargas del usuario"
    );
    assert_eq!(
        FetchError::DirectoryCreation("denied".to_string()).message(),
        "Error al crear la carpeta de descargas: denied"
    );
    assert_eq!(FetchError::Download("reset".to_string()).message(), "Download Error: reset");
}

#[test]
fn download_outcome_keeps_the_path() {
    assert_eq!(
        download_outcome(Ok("/home/alice/Downloads/Youtube-Downloader/song.mp4".to_string())),
        Ok("/home/alice/Downloads/Youtube-Downloader/song.mp4".to_string())
    );
}

#[test]
fn download_outcome_turns_errors_into_text() {
    assert_eq!(
        download_outcome(Err(FetchError::InvalidSource("VideoNotFound".to_string()))),
        Err("Object Error: VideoNotFound".to_string())
    );
    assert_eq!(
        download_outcome(Err(FetchError::NoDownloadLocation)),
        Err("No se pudo obtener la carpeta de descargas del usuario".to_string())
    );
    assert_eq!(
        download_outcome(Err(FetchError::DirectoryCreation("denied".to_string()))),
        Err("Error al crear la carpeta de descargas: denied".to_string())
    );
    assert_eq!(
        download_outcome(Err(FetchError::Download("reset".to_string()))),
        Err("Download Error: reset".to_string())
    );
}
