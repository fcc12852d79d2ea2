use fatdisk::naming::{candidate_name, next_available_name, NameError, NameStep};

#[test]
fn candidate_names() {
    assert_eq!(candidate_name("disk", "img", 1), "disk01.img");
    assert_eq!(candidate_name("disk", "img", 42), "disk42.img");
    assert_eq!(candidate_name("disk", "", 99), "disk99");
    assert_eq!(candidate_name("", "x", 10), "10.x");
}

fn run(stem: Option<&str>, ext: &str, taken: &[&str], base: &str) -> Result<String, NameError> {
    let mut current = base.to_string();
    let mut probed: u8 = 0;
    loop {
        let exists = taken.contains(&current.as_str());
        match next_available_name(stem, ext, probed, exists) {
            NameStep::Take => return Ok(current),
            NameStep::Check(name) => {
                current = name;
                probed += 1;
            }
            NameStep::Fail(e) => return Err(e),
        }
    }
}

#[test]
fn free_base_name_is_used() {
    assert_eq!(run(Some("disk"), "img", &[], "disk.img"), Ok("disk.img".to_string()));
}

#[test]
fn first_free_numbered_name_is_used() {
    let taken = ["disk.img", "disk01.img", "disk02.img", "disk04.img"];
    assert_eq!(run(Some("disk"), "img", &taken, "disk.img"), Ok("disk03.img".to_string()));
}

#[test]
fn name_without_extension() {
    let taken = ["disk"];
    assert_eq!(run(Some("disk"), "", &taken, "disk"), Ok("disk01".to_string()));
}

#[test]
fn taken_name_without_stem_fails() {
    assert!(matches!(next_available_name(None, "", 0, true), NameStep::Fail(NameError::InvalidFilename)));
    assert!(matches!(next_available_name(None, "", 0, false), NameStep::Take));
}

#[test]
fn all_hundred_names_taken() {
    let mut taken: Vec<String> = vec!["d.img".to_string()];
    for i in 1..=99u8 {
        taken.push(format!("d{:02}.img", i));
    }
    let refs: Vec<&str> = taken.iter().map(|s| s.as_str()).collect();
    assert_eq!(run(Some("d"), "img", &refs, "d.img"), Err(NameError::NoneAvailable));
    assert!(matches!(next_available_name(Some("d"), "img", 99, true), NameStep::Fail(NameError::NoneAvailable)));
}

#[test]
fn probe_names_follow_suffixes() {
    match next_available_name(Some("a"), "b", 7, true) {
        NameStep::Check(n) => assert_eq!(n, "a08.b"),
        _ => panic!("expected a probe"),
    }
}
