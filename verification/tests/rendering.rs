use tetris::rendering::{rgb, translate, translate_all, RawEvent, RawKey};
use tetris::tetromino::Color;
use tetris::util::{Event, Keycode};

#[test]
fn each_colour_has_its_paint() {
    assert_eq!(rgb(Color::Red), (255, 0, 0));
    assert_eq!(rgb(Color::Blue), (0, 0, 255));
    assert_eq!(rgb(Color::Green), (0, 255, 0));
    assert_eq!(rgb(Color::Orange), (235, 69, 17));
    assert_eq!(rgb(Color::Purple), (56, 2, 59));
    assert_eq!(rgb(Color::Teal), (34, 124, 157));
    assert_eq!(rgb(Color::Yellow), (255, 255, 0));
}

#[test]
fn closing_the_window_and_escape_quit() {
    assert_eq!(translate(RawEvent::Quit), Some(Event::Quit));
    assert_eq!(
        translate(RawEvent::KeyDown { key: RawKey::Escape, repeat: false }),
        Some(Event::Quit)
    );
    assert_eq!(
        translate(RawEvent::KeyDown { key: RawKey::Escape, repeat: true }),
        Some(Event::Quit)
    );
    assert_eq!(translate(RawEvent::KeyUp { key: RawKey::Escape, repeat: false }), None);
}

#[test]
fn known_keys_going_down_are_reported() {
    let keys = [
        (RawKey::W, Keycode::W),
        (RawKey::A, Keycode::A),
        (RawKey::S, Keycode::S),
        (RawKey::D, Keycode::D),
        (RawKey::Space, Keycode::Space),
        (RawKey::LeftShift, Keycode::Shift),
    ];
    for (raw, key) in keys {
        assert_eq!(
            translate(RawEvent::KeyDown { key: raw, repeat: false }),
            Some(Event::KeyDown(key))
        );
        assert_eq!(translate(RawEvent::KeyDown { key: raw, repeat: true }), None);
    }
    assert_eq!(translate(RawEvent::KeyDown { key: RawKey::Other, repeat: false }), None);
}

#[test]
fn letter_keys_going_up_are_reported() {
    let keys = [
        (RawKey::W, Keycode::W),
        (RawKey::A, Keycode::A),
        (RawKey::S, Keycode::S),
        (RawKey::D, Keycode::D),
    ];
    for (raw, key) in keys {
        assert_eq!(translate(RawEvent::KeyUp { key: raw, repeat: false }), Some(Event::KeyUp(key)));
        assert_eq!(translate(RawEvent::KeyUp { key: raw, repeat: true }), None);
    }
    assert_eq!(translate(RawEvent::KeyUp { key: RawKey::Space, repeat: false }), None);
    assert_eq!(translate(RawEvent::KeyUp { key: RawKey::LeftShift, repeat: false }), None);
    assert_eq!(translate(RawEvent::KeyUp { key: RawKey::Other, repeat: false }), None);
    assert_eq!(translate(RawEvent::Other), None);
}

#[test]
fn events_are_reported_in_their_order() {
    let raw = vec![
        RawEvent::KeyDown { key: RawKey::A, repeat: false },
        RawEvent::Other,
        RawEvent::KeyDown { key: RawKey::A, repeat: true },
        RawEvent::KeyUp { key: RawKey::Space, repeat: false },
        RawEvent::KeyDown { key: RawKey::Space, repeat: false },
        RawEvent::KeyUp { key: RawKey::A, repeat: false },
        RawEvent::KeyDown { key: RawKey::Escape, repeat: true },
        RawEvent::Quit,
        RawEvent::KeyDown { key: RawKey::A, repeat: false },
    ];
    assert_eq!(
        translate_all(&raw),
        vec![
            Event::KeyDown(Keycode::A),
            Event::KeyDown(Keycode::Space),
            Event::KeyUp(Keycode::A),
            Event::Quit,
            Event::Quit,
            Event::KeyDown(Keycode::A),
        ]
    );
    assert_eq!(translate_all(&Vec::new()), Vec::new());
}
