use equation_maker::backends::Backend;
use equation_maker::hashing::{cache_dir, equation_hash, get_dir};

#[test]
fn hash_matches_known_values() {
    // FNV-1a of the UTF-8 bytes, 64-bit
    assert_eq!(equation_hash(""), 14695981039346656037);
    assert_eq!(equation_hash("x^2"), 13796342161362080587);
    assert_eq!(equation_hash("E = mc^2"), 6410690223767171053);
}

#[test]
fn hash_is_stable_across_calls() {
    let a = equation_hash("\\frac{1}{2}");
    let b = equation_hash("\\frac{1}{2}");
    assert_eq!(a, b);
}

#[test]
fn hash_distinguishes_typical_inputs() {
    assert_ne!(equation_hash("x^2"), equation_hash("x^3"));
}

#[test]
fn cache_directory_path() {
    assert_eq!(get_dir("/data/latex_image", 5), "/data/latex_image/latex_5");
    assert_eq!(
        get_dir("root", equation_hash("x^2")),
        "root/latex_13796342161362080587"
    );
}

#[test]
fn cache_dir_dispatches_by_backend() {
    assert_eq!(
        cache_dir(Backend::LaTeX, "root", "session", "x^2"),
        "root/latex_13796342161362080587"
    );
    assert_eq!(cache_dir(Backend::Typst, "root", "session", "x^2"), "session");
}
