use gui_error::decimal::decimal_string;
use gui_error::os_error::OsError;
use gui_error::system_error::SystemError;

#[test]
fn window_creation_failure_with_access_denied() {
    let os = OsError::new(5, "Access is denied");
    assert_eq!(
        SystemError::WindowCreationFail.describe(&os),
        "Failed to create a system window for a control.\nID 5 - Access is denied"
    );
}

#[test]
fn class_creation_failure_shows_code_and_text() {
    let os = OsError::new(1410, "Class already exists.");
    assert_eq!(
        SystemError::SystemClassCreation.describe(&os),
        "Failed to create a system class for a control.\nID 1410 - Class already exists."
    );
}

#[test]
fn ui_creation_failure_shows_code_and_text() {
    let os = OsError::new(8, "Not enough memory resources are available to process this command.");
    assert_eq!(
        SystemError::UiCreation.describe(&os),
        "The system could not initialize the Ui.\nID 8 - Not enough memory resources are available to process this command."
    );
}

#[test]
fn every_system_error_has_its_sentence() {
    assert_eq!(
        SystemError::SystemClassCreation.sentence(),
        "Failed to create a system class for a control"
    );
    assert_eq!(
        SystemError::WindowCreationFail.sentence(),
        "Failed to create a system window for a control"
    );
    assert_eq!(SystemError::UiCreation.sentence(), "The system could not initialize the Ui");
}

#[test]
fn every_system_error_is_sentence_then_id_line() {
    let os = OsError::new(123, "The filename is incorrect.");
    let all = [
        SystemError::SystemClassCreation,
        SystemError::WindowCreationFail,
        SystemError::UiCreation,
    ];
    for e in all.iter() {
        let expected = format!("{}.\nID 123 - The filename is incorrect.", e.sentence());
        assert_eq!(e.describe(&os), expected);
    }
}

#[test]
fn success_code_and_empty_text() {
    let os = OsError::new(0, "");
    assert_eq!(
        SystemError::UiCreation.describe(&os),
        "The system could not initialize the Ui.\nID 0 - "
    );
}

#[test]
fn largest_code_is_rendered_in_full() {
    let os = OsError::new(u32::MAX, "Unknown error");
    assert_eq!(
        SystemError::WindowCreationFail.describe(&os),
        "Failed to create a system window for a control.\nID 4294967295 - Unknown error"
    );
}

#[test]
fn text_is_kept_as_given() {
    let os = OsError::new(2, "Le fichier spécifié est introuvable.\r\n");
    assert_eq!(
        SystemError::SystemClassCreation.describe(&os),
        "Failed to create a system class for a control.\nID 2 - Le fichier spécifié est introuvable.\r\n"
    );
}

#[test]
fn describing_a_system_error_twice_gives_the_same_text() {
    let os = OsError::new(5, "Access is denied");
    let e = SystemError::WindowCreationFail;
    let first = e.describe(&os);
    let second = e.describe(&os);
    assert_eq!(first, second);
}

#[test]
fn a_later_reading_changes_the_text() {
    let e = SystemError::WindowCreationFail;
    let at_failure = OsError::new(5, "Access is denied");
    let later = OsError::new(0, "The operation completed successfully.");
    assert_ne!(e.describe(&at_failure), e.describe(&later));
    assert_eq!(
        e.describe(&later),
        "Failed to create a system window for a control.\nID 0 - The operation completed successfully."
    );
}

#[test]
fn system_errors_compare_by_variant() {
    assert!(SystemError::UiCreation == SystemError::UiCreation);
    assert!(SystemError::UiCreation != SystemError::WindowCreationFail);
    assert!(SystemError::SystemClassCreation != SystemError::WindowCreationFail);
    let copy = SystemError::SystemClassCreation;
    let other = copy;
    assert!(copy == other);
    assert!(copy.clone() == SystemError::SystemClassCreation);
}

#[test]
fn os_error_holds_what_it_was_given() {
    let os = OsError::new(87, "The parameter is incorrect.");
    assert_eq!(os.code, 87);
    assert_eq!(os.text, "The parameter is incorrect.");
}

#[test]
fn decimal_of_single_digits() {
    let expected = ["0", "1", "2", "3", "4", "5", "6", "7", "8", "9"];
    for (n, e) in expected.iter().enumerate() {
        assert_eq!(decimal_string(n as u32), *e);
    }
}

#[test]
fn decimal_of_several_digits() {
    assert_eq!(decimal_string(10), "10");
    assert_eq!(decimal_string(99), "99");
    assert_eq!(decimal_string(100), "100");
    assert_eq!(decimal_string(1005), "1005");
    assert_eq!(decimal_string(2147483648), "2147483648");
    assert_eq!(decimal_string(u32::MAX), "4294967295");
}

#[test]
fn decimal_agrees_with_the_standard_rendering() {
    let mut n: u32 = 1;
    for _ in 0..40 {
        assert_eq!(decimal_string(n), format!("{:?}", n));
        n = n.wrapping_mul(2654435761).wrapping_add(12345);
    }
}
