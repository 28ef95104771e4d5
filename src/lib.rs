//! Decision logic of a desktop front-end over yt-dlp and ffmpeg: which helper
//! executables are missing and how to fetch them, and how a download request
//! made of user-chosen tokens maps onto the downloader's parameters.

pub mod library;
pub mod request;

pub use library::{
    classify_libraries, dir_action, install_steps, library_path, Binary, DirAction, InstallRun,
    InstallStatus, Platform, YtdlpLibrary, LIBRARY_DIR,
};
pub use request::{
    map_quality, output_dir, output_file_name, parse_format, plan_download, DownloadCall, Format,
    QualityPair, Tier, DEFAULT_OUTPUT_DIR,
};
