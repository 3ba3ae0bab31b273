//! What a terminal is sent when colours are switched on.

use statuspage::{Line, Marker};

#[test]
fn lines_are_framed_by_colour_codes_when_colours_are_on() {
    colored::control::set_override(true);

    assert_eq!(Marker::Success.tint("ok"), "\x1b[32mok\x1b[0m");
    assert_eq!(Marker::Warning.tint("slow"), "\x1b[33mslow\x1b[0m");
    assert_eq!(Marker::Severe.tint("down"), "\x1b[31mdown\x1b[0m");
    assert_eq!(Marker::Plain.tint("as it is"), "as it is");

    let alert = Marker::Alert.tint("partly down");
    assert!(alert.starts_with("\x1b["));
    assert!(alert.ends_with("mpartly down\x1b[0m"));

    let line = Line::named("API", "operational", Marker::Success);
    assert_eq!(line.paint(), "API: \x1b[32moperational\x1b[0m");
    assert_eq!(Line::marked("All good", Marker::Success).paint(), "\x1b[32mAll good\x1b[0m");
    assert_eq!(Line::plain("More info: ", "https://status.example").paint(), "More info: https://status.example");
    assert_eq!(Line::blank().paint(), "");
    assert_eq!(
        Line::marked("Error retrieving information", Marker::Severe).paint(),
        "\x1b[31mError retrieving information\x1b[0m"
    );
}
