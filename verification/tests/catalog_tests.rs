use workload_driver::catalog::{file_names, standard_catalog, TestFile};

#[test]
fn standard_catalog_has_the_four_files() {
    let catalog = standard_catalog();
    let entries: Vec<(&str, usize)> =
        catalog.iter().map(|file| (file.name.as_str(), file.size_bytes)).collect();
    assert_eq!(
        entries,
        vec![
            ("small.txt", 1024),
            ("medium.txt", 10240),
            ("large.txt", 102400),
            ("huge.txt", 1024000),
        ]
    );
}

#[test]
fn standard_sizes_are_one_ten_hundred_and_thousand_kilobytes() {
    let catalog = standard_catalog();
    assert_eq!(catalog[0].size_bytes, 1024);
    assert_eq!(catalog[1].size_bytes, 1024 * 10);
    assert_eq!(catalog[2].size_bytes, 1024 * 100);
    assert_eq!(catalog[3].size_bytes, 1024 * 1000);
}

#[test]
fn file_names_keep_catalog_order() {
    let names = file_names(&standard_catalog());
    assert_eq!(names, vec!["small.txt", "medium.txt", "large.txt", "huge.txt"]);
}

#[test]
fn file_names_of_an_empty_catalog_are_empty() {
    let names = file_names(&Vec::new());
    assert!(names.is_empty());
}

#[test]
fn file_names_keep_repeated_names() {
    let catalog = vec![
        TestFile { name: String::from("a.txt"), size_bytes: 1 },
        TestFile { name: String::from("b.txt"), size_bytes: 2 },
        TestFile { name: String::from("a.txt"), size_bytes: 3 },
    ];
    assert_eq!(file_names(&catalog), vec!["a.txt", "b.txt", "a.txt"]);
}

#[test]
fn content_of_each_standard_file_has_its_size_and_is_printable() {
    for file in standard_catalog() {
        let content = file.content();
        assert_eq!(content.chars().count(), file.size_bytes);
        assert_eq!(content.len(), file.size_bytes);
        assert!(content.bytes().all(|byte| (32..=126).contains(&byte)));
    }
}

#[test]
fn content_of_an_empty_file_is_empty() {
    let file = TestFile { name: String::from("empty.txt"), size_bytes: 0 };
    assert_eq!(file.content(), "");
}
