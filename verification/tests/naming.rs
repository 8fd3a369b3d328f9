use pdf_images::naming::{output_document_name, page_file_name};

#[test]
fn first_page_is_number_one() {
    assert_eq!(page_file_name(0), "page_0001.png");
}

#[test]
fn names_are_padded_to_four_digits() {
    assert_eq!(page_file_name(8), "page_0009.png");
    assert_eq!(page_file_name(9), "page_0010.png");
    assert_eq!(page_file_name(98), "page_0099.png");
    assert_eq!(page_file_name(99), "page_0100.png");
    assert_eq!(page_file_name(998), "page_0999.png");
    assert_eq!(page_file_name(999), "page_1000.png");
    assert_eq!(page_file_name(9998), "page_9999.png");
}

#[test]
fn long_numbers_are_kept_whole() {
    assert_eq!(page_file_name(9999), "page_10000.png");
    assert_eq!(page_file_name(123455), "page_123456.png");
}

#[test]
fn largest_index_does_not_overflow() {
    let expected = format!("page_{}.png", usize::MAX as u128 + 1);
    assert_eq!(page_file_name(usize::MAX), expected);
}

#[test]
fn names_agree_with_std_formatting() {
    let mut i: usize = 0;
    while i < 12000 {
        assert_eq!(page_file_name(i), format!("page_{:04}.png", i + 1));
        i += 7;
    }
}

#[test]
fn names_of_different_pages_differ() {
    let mut seen: Vec<String> = Vec::new();
    for i in 0..1200usize {
        let name = page_file_name(i);
        assert!(!seen.contains(&name));
        seen.push(name);
    }
}

#[test]
fn output_document_has_its_fixed_name() {
    assert_eq!(output_document_name(), "output.pdf");
}
