//! Where files are, and when two paths are the same place.

use std::path::Path;
use voicestudio::path::same_path;

#[test]
fn paths_are_the_same_place_as_the_platform_has_it() {
    let paths = [
        "", "/", "//", ".", "./", "/.", "..", "a", "./a", "a/", "a/.", "a/./", "a//", "/a", "//a", "/./a",
        "/a/", "a/b", "a//b", "a/./b", "./a/b", "a/../b", "b", "/a/b", "/a//b", "/a/b/.", "/a/b//",
        "a/.b", "a/..", "...", "é/ọ̀", "é//ọ̀", "A", " a", "a.wav", "./a.wav", "././a", ".//a",
    ];
    for a in paths {
        for b in paths {
            assert_eq!(same_path(a, b), Path::new(a) == Path::new(b), "{a:?} and {b:?}");
        }
    }
}
