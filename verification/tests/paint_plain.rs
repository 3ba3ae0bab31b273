//! What a terminal is sent when colours are switched off.

use statuspage::{Line, Marker};

#[test]
fn lines_read_as_their_content_when_colours_are_off() {
    colored::control::set_override(false);

    for marker in [Marker::Success, Marker::Warning, Marker::Alert, Marker::Severe, Marker::Plain] {
        assert_eq!(marker.tint("text"), "text");
        let line = Line::named("API", "operational", marker);
        assert_eq!(line.paint(), "API: operational");
        assert_eq!(line.paint(), line.content());
    }
}
