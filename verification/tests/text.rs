use cloud_vm_simulator::text::{decimal_string, push_text, split_commas};

#[test]
fn decimal_of_single_digits() {
    assert_eq!(decimal_string(0), "0");
    assert_eq!(decimal_string(7), "7");
    assert_eq!(decimal_string(9), "9");
}

#[test]
fn decimal_of_longer_numbers() {
    assert_eq!(decimal_string(10), "10");
    assert_eq!(decimal_string(22), "22");
    assert_eq!(decimal_string(8080), "8080");
    assert_eq!(decimal_string(32768), "32768");
    assert_eq!(decimal_string(60998), "60998");
    assert_eq!(decimal_string(65535), "65535");
}

#[test]
fn decimal_agrees_with_std_on_every_value() {
    let mut n: u16 = 0;
    loop {
        assert_eq!(decimal_string(n), n.to_string());
        if n == u16::MAX {
            break;
        }
        n += 1;
    }
}

#[test]
fn decimal_reads_back() {
    for n in [0u16, 1, 99, 100, 32768, 45000, 60998] {
        let text = decimal_string(n);
        assert!(!text.is_empty());
        assert!(text.chars().all(|c| c.is_ascii_digit()));
        assert_eq!(text.parse::<u16>().unwrap(), n);
    }
}

#[test]
fn split_two_ports() {
    assert_eq!(split_commas("8080,9090"), vec!["8080".to_string(), "9090".to_string()]);
}

#[test]
fn split_without_comma_is_one_piece() {
    assert_eq!(split_commas("8080"), vec!["8080".to_string()]);
}

#[test]
fn split_empty_text_is_one_empty_piece() {
    assert_eq!(split_commas(""), vec![String::new()]);
}

#[test]
fn split_keeps_empty_pieces() {
    assert_eq!(split_commas(","), vec![String::new(), String::new()]);
    assert_eq!(
        split_commas("a,,b,"),
        vec!["a".to_string(), String::new(), "b".to_string(), String::new()]
    );
}

#[test]
fn split_agrees_with_std() {
    for text in ["", ",", "80", "80,443", ",80", "80,", "1,2,3,4", "é,ü", " 80 , 81 "] {
        let expected: Vec<String> = text.split(',').map(|p| p.to_string()).collect();
        assert_eq!(split_commas(text), expected);
    }
}

#[test]
fn split_then_join_gives_the_text_back() {
    for text in ["", ",", "80,443", "a,,b,", "no comma"] {
        let pieces = split_commas(text);
        assert!(!pieces.is_empty());
        assert!(pieces.iter().all(|p| !p.contains(',')));
        assert_eq!(pieces.join(","), text);
    }
}

#[test]
fn push_text_appends_a_copy() {
    let mut v = vec!["a".to_string()];
    push_text(&mut v, "b");
    push_text(&mut v, "");
    assert_eq!(v, vec!["a".to_string(), "b".to_string(), String::new()]);
}
