use rustemetica::math_fs::math_file_name;

#[test]
fn appends_extension() {
    assert_eq!(math_file_name("known"), "known.math");
    assert_eq!(math_file_name("unknown_file"), "unknown_file.math");
    assert_eq!(math_file_name("./dir/known"), "./dir/known.math");
}

#[test]
fn keeps_existing_extension() {
    assert_eq!(math_file_name("known.math"), "known.math");
    assert_eq!(math_file_name(".math"), ".math");
}

#[test]
fn near_miss_extensions() {
    assert_eq!(math_file_name(""), ".math");
    assert_eq!(math_file_name("math"), "math.math");
    assert_eq!(math_file_name("a.mat"), "a.mat.math");
    assert_eq!(math_file_name("a.math.txt"), "a.math.txt.math");
    assert_eq!(math_file_name("é.math"), "é.math");
}
