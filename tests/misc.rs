use book_exercises::closures::T;
use book_exercises::guess::{judge, secret_number, Verdict, SECRET_MAX, SECRET_MIN};
use book_exercises::minigrep::{Bar, Config};
use book_exercises::phone_book::MemberInfo;
use book_exercises::rectangle::{area, Rectangle};

#[test]
fn config_needs_two_arguments() {
    let args = vec![String::from("prog"), String::from("query")];
    assert_eq!(Config::build(&args).err(), Some("not enough arguments"));
    assert_eq!(Config::build(&[]).err(), Some("not enough arguments"));
}

#[test]
fn config_reads_query_and_path() {
    let args = vec![
        String::from("prog"),
        String::from("needle"),
        String::from("poem.txt"),
        String::from("extra"),
    ];
    let config = Config::build(&args).ok().unwrap();
    assert_eq!(config.query, "needle");
    assert_eq!(config.file_path, "poem.txt");
}

#[test]
fn bar_keeps_coordinates() {
    let b = Bar::new(1, 2);
    assert_eq!((b.x, b.y), (1, 2));
}

#[test]
fn applier_runs_the_closure() {
    let a = 4;
    let x = T { val: 5 };
    let add_a = |x: T| T { val: x.val + a };
    assert_eq!(x.applier(add_a).val, 9);
}

#[test]
fn rectangle_area() {
    let rect = Rectangle { width: 30 * 2, height: 50 };
    assert_eq!(area(&rect), 3000);
    assert_eq!(area(&Rectangle { width: 0, height: 7 }), 0);
}

#[test]
fn member_info_keeps_fields() {
    let m = MemberInfo::new(
        String::from("kim"),
        String::from("2020123456"),
        String::from("010-1234-5678"),
    );
    assert_eq!(m.name, "kim");
    assert_eq!(m.student_number, "2020123456");
    assert_eq!(m.phone, "010-1234-5678");
}

#[test]
fn judge_compares_guess_with_secret() {
    assert_eq!(judge(10, 50), Verdict::TooSmall);
    assert_eq!(judge(90, 50), Verdict::TooBig);
    assert_eq!(judge(50, 50), Verdict::Win);
}

#[test]
fn secret_stays_in_range() {
    let mut seen_other_than_min = false;
    for _ in 0..1000 {
        let s = secret_number();
        assert!(SECRET_MIN <= s && s <= SECRET_MAX);
        if s != SECRET_MIN {
            seen_other_than_min = true;
        }
    }
    assert!(seen_other_than_min);
}
