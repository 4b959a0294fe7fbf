use rebase_tui::color::{Color, InvalidColorError};

#[test]
fn color_named_black() {
    assert_eq!(Color::try_from("black"), Ok(Color::LightBlack));
    assert_eq!(Color::try_from("light black"), Ok(Color::LightBlack));
    assert_eq!(Color::try_from("dark black"), Ok(Color::DarkBlack));
}

#[test]
fn color_named_blue() {
    assert_eq!(Color::try_from("blue"), Ok(Color::LightBlue));
    assert_eq!(Color::try_from("light blue"), Ok(Color::LightBlue));
    assert_eq!(Color::try_from("dark blue"), Ok(Color::DarkBlue));
}

#[test]
fn color_named_cyan() {
    assert_eq!(Color::try_from("cyan"), Ok(Color::LightCyan));
    assert_eq!(Color::try_from("light cyan"), Ok(Color::LightCyan));
    assert_eq!(Color::try_from("dark cyan"), Ok(Color::DarkCyan));
}

#[test]
fn color_named_green() {
    assert_eq!(Color::try_from("green"), Ok(Color::LightGreen));
    assert_eq!(Color::try_from("light green"), Ok(Color::LightGreen));
    assert_eq!(Color::try_from("dark green"), Ok(Color::DarkGreen));
}

#[test]
fn color_named_magenta() {
    assert_eq!(Color::try_from("magenta"), Ok(Color::LightMagenta));
    assert_eq!(Color::try_from("light magenta"), Ok(Color::LightMagenta));
    assert_eq!(Color::try_from("dark magenta"), Ok(Color::DarkMagenta));
}

#[test]
fn color_named_red() {
    assert_eq!(Color::try_from("red"), Ok(Color::LightRed));
    assert_eq!(Color::try_from("light red"), Ok(Color::LightRed));
    assert_eq!(Color::try_from("dark red"), Ok(Color::DarkRed));
}

#[test]
fn color_named_white() {
    assert_eq!(Color::try_from("white"), Ok(Color::LightWhite));
    assert_eq!(Color::try_from("light white"), Ok(Color::LightWhite));
    assert_eq!(Color::try_from("dark white"), Ok(Color::DarkWhite));
}

#[test]
fn color_named_yellow() {
    assert_eq!(Color::try_from("yellow"), Ok(Color::LightYellow));
    assert_eq!(Color::try_from("light yellow"), Ok(Color::LightYellow));
    assert_eq!(Color::try_from("dark yellow"), Ok(Color::DarkYellow));
}

#[test]
fn color_named_grey() {
    assert_eq!(Color::try_from("grey"), Ok(Color::LightGrey));
    assert_eq!(Color::try_from("light grey"), Ok(Color::LightGrey));
    assert_eq!(Color::try_from("dark grey"), Ok(Color::DarkGrey));
}

#[test]
fn color_transparent() {
    assert_eq!(Color::try_from("transparent"), Ok(Color::Default));
    assert_eq!(Color::try_from("-1"), Ok(Color::Default));
}

#[test]
fn color_index_bounds() {
    assert_eq!(Color::try_from("0"), Ok(Color::Index(0)));
    assert_eq!(Color::try_from("255"), Ok(Color::Index(255)));
    assert_eq!(Color::try_from("+42"), Ok(Color::Index(42)));
    assert_eq!(Color::try_from("007"), Ok(Color::Index(7)));
}

#[test]
fn color_rgb() {
    assert_eq!(
        Color::try_from("100,101,102"),
        Ok(Color::Rgb { red: 100, green: 101, blue: 102 })
    );
    assert_eq!(Color::try_from("0,0,0"), Ok(Color::Rgb { red: 0, green: 0, blue: 0 }));
    assert_eq!(
        Color::try_from("255,255,255"),
        Ok(Color::Rgb { red: 255, green: 255, blue: 255 })
    );
}

#[test]
fn color_index_errors() {
    assert_eq!(Color::try_from("256"), Err(InvalidColorError::Indexed));
    assert_eq!(Color::try_from("-2"), Err(InvalidColorError::Indexed));
    assert_eq!(Color::try_from("invalid"), Err(InvalidColorError::Indexed));
    assert_eq!(Color::try_from(""), Err(InvalidColorError::Indexed));
}

#[test]
fn color_rgb_red_errors() {
    assert_eq!(Color::try_from("red,0,0"), Err(InvalidColorError::Red));
    assert_eq!(Color::try_from("-1,0,0"), Err(InvalidColorError::Red));
    assert_eq!(Color::try_from("256,0,0"), Err(InvalidColorError::Red));
    assert_eq!(Color::try_from("99999,0,0"), Err(InvalidColorError::Red));
}

#[test]
fn color_rgb_green_errors() {
    assert_eq!(Color::try_from("0,green,0"), Err(InvalidColorError::Green));
    assert_eq!(Color::try_from("0,-1,0"), Err(InvalidColorError::Green));
    assert_eq!(Color::try_from("0,256,0"), Err(InvalidColorError::Green));
}

#[test]
fn color_rgb_blue_errors() {
    assert_eq!(Color::try_from("0,0,blue"), Err(InvalidColorError::Blue));
    assert_eq!(Color::try_from("0,0,-1"), Err(InvalidColorError::Blue));
    assert_eq!(Color::try_from("0,0,256"), Err(InvalidColorError::Blue));
}

#[test]
fn color_wrong_field_count() {
    assert_eq!(Color::try_from("invalid,invalid"), Err(InvalidColorError::Invalid));
    assert_eq!(Color::try_from("1,2,3,4"), Err(InvalidColorError::Invalid));
}

#[test]
fn color_minus_zero_channel_is_in_range() {
    assert_eq!(Color::try_from("-0,0,0"), Ok(Color::Rgb { red: 0, green: 0, blue: 0 }));
}
