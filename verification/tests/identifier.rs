use foreground_listener::event::{ObjectType, WindowEvent};
use foreground_listener::identifier::{render_identifier, NULL_IDENTIFIER};

#[test]
fn handle_renders_as_its_decimal_digits() {
    assert_eq!(render_identifier(12345), "12345");
}

#[test]
fn null_identifier_renders_as_zero() {
    assert_eq!(NULL_IDENTIFIER, 0);
    assert_eq!(render_identifier(NULL_IDENTIFIER), "0");
}

#[test]
fn single_digits_render_alone() {
    let expected = ["0", "1", "2", "3", "4", "5", "6", "7", "8", "9"];
    for (value, text) in expected.iter().enumerate() {
        assert_eq!(render_identifier(value as isize), *text);
    }
}

#[test]
fn powers_of_ten_keep_their_zeros() {
    assert_eq!(render_identifier(10), "10");
    assert_eq!(render_identifier(100), "100");
    assert_eq!(render_identifier(1_000_000), "1000000");
    assert_eq!(render_identifier(1_000_001), "1000001");
    assert_eq!(render_identifier(99), "99");
}

#[test]
fn negative_identifiers_carry_a_minus_sign() {
    assert_eq!(render_identifier(-1), "-1");
    assert_eq!(render_identifier(-12345), "-12345");
    assert_eq!(render_identifier(-10), "-10");
}

#[test]
fn extreme_identifiers_render_in_full() {
    assert_eq!(render_identifier(isize::MAX), format!("{}", isize::MAX));
    assert_eq!(render_identifier(isize::MIN), format!("{}", isize::MIN));
    assert_eq!(render_identifier(isize::MIN + 1), format!("{}", isize::MIN + 1));
}

#[test]
fn rendering_agrees_with_the_standard_formatter() {
    let samples: [isize; 12] =
        [0, 7, 42, 1000, 65536, 131074, 0x7fff_0000, -7, -42, -1000, -65536, -0x7fff_0000];
    for value in samples {
        assert_eq!(render_identifier(value), format!("{}", value));
    }
}

#[test]
fn record_with_handle_yields_that_handle() {
    let record = WindowEvent::new(ObjectType::Window, Some(12345));
    assert_eq!(record.identifier(), 12345);
    assert_eq!(record.argument(), "12345");
}

#[test]
fn record_without_handle_yields_the_null_identifier() {
    let record = WindowEvent::new(ObjectType::Window, None);
    assert_eq!(record.identifier(), NULL_IDENTIFIER);
    assert_eq!(record.argument(), "0");
}

#[test]
fn only_window_objects_count_as_windows() {
    assert!(WindowEvent::new(ObjectType::Window, Some(1)).is_window());
    assert!(WindowEvent::new(ObjectType::Window, None).is_window());
    let others = [
        ObjectType::Alert,
        ObjectType::Caret,
        ObjectType::Client,
        ObjectType::Cursor,
        ObjectType::HorizontalScroll,
        ObjectType::NativeObjectModel,
        ObjectType::Menu,
        ObjectType::QueryClassNameIdx,
        ObjectType::SizeGrip,
        ObjectType::Sound,
        ObjectType::SystemMenu,
        ObjectType::TitleBar,
        ObjectType::VerticalScroll,
        ObjectType::Other(0),
        ObjectType::Other(17),
    ];
    for object_type in others {
        assert!(!WindowEvent::new(object_type, Some(1)).is_window());
    }
}

#[test]
fn new_record_keeps_its_fields() {
    let record = WindowEvent::new(ObjectType::Caret, Some(-3));
    assert_eq!(record.object_type, ObjectType::Caret);
    assert_eq!(record.window_handle, Some(-3));
    assert_eq!(record.argument(), "-3");
}

#[test]
fn rendered_text_reads_back_as_the_identifier() {
    let samples: [isize; 10] =
        [0, 1, -1, 9, 10, 12345, -12345, 1_000_000_007, isize::MAX, isize::MIN];
    for value in samples {
        assert_eq!(render_identifier(value).parse::<isize>(), Ok(value));
    }
}

#[test]
fn different_identifiers_render_differently() {
    let samples: [isize; 8] = [0, 1, -1, 10, 100, 101, 110, -110];
    for (i, a) in samples.iter().enumerate() {
        for (j, b) in samples.iter().enumerate() {
            assert_eq!(render_identifier(*a) == render_identifier(*b), i == j);
        }
    }
}
