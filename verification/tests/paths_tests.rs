use x265ify::paths::{
    backup_destination, extension, file_name, file_stem, get_output_path, join_path, parent_dir,
};

#[test]
fn file_name_variants() {
    assert_eq!(file_name("a/b/c.mkv"), "c.mkv");
    assert_eq!(file_name("movie.avi"), "movie.avi");
    assert_eq!(file_name("dir/"), "");
    assert_eq!(file_name("/movie.avi"), "movie.avi");
}

#[test]
fn parent_dir_variants() {
    assert_eq!(parent_dir("/videos/movie.avi"), "/videos");
    assert_eq!(parent_dir("movie.avi"), "");
    assert_eq!(parent_dir("/movie.avi"), "/");
    assert_eq!(parent_dir("a/b/c"), "a/b");
}

#[test]
fn file_stem_variants() {
    assert_eq!(file_stem("movie.avi"), "movie");
    assert_eq!(file_stem(".bashrc"), ".bashrc");
    assert_eq!(file_stem("archive.tar.gz"), "archive.tar");
    assert_eq!(file_stem("movie"), "movie");
    assert_eq!(file_stem("movie."), "movie");
}

#[test]
fn extension_variants() {
    assert_eq!(extension("movie.avi"), Some("avi"));
    assert_eq!(extension(".bashrc"), None);
    assert_eq!(extension("movie"), None);
    assert_eq!(extension("movie."), Some(""));
    assert_eq!(extension("archive.tar.gz"), Some("gz"));
}

#[test]
fn join_path_variants() {
    assert_eq!(join_path("", "x"), "x");
    assert_eq!(join_path("/tmp/backup", "movie.avi"), "/tmp/backup/movie.avi");
    assert_eq!(join_path("a/", "b"), "a/b");
    assert_eq!(join_path("/", "b"), "/b");
}

#[test]
fn output_path_for_bare_file_name() {
    assert_eq!(get_output_path("movie.avi", "x265"), "movie.x265.mkv");
}

#[test]
fn output_path_stays_in_input_directory() {
    assert_eq!(get_output_path("/videos/movie.avi", "x265"), "/videos/movie.x265.mkv");
    assert_eq!(get_output_path("a/b/clip.mp4", "x265"), "a/b/clip.x265.mkv");
}

#[test]
fn output_path_without_a_stem_falls_back() {
    assert_eq!(get_output_path("dir/", "x265"), "dir/out.x265.mkv");
}

#[test]
fn backup_destination_is_file_name_in_backup_dir() {
    assert_eq!(backup_destination("movie.avi", "/tmp/backup"), "/tmp/backup/movie.avi");
    assert_eq!(backup_destination("/videos/movie.avi", "/tmp/backup"), "/tmp/backup/movie.avi");
}
