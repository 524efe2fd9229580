use xkcd_cli::model::{Comic, OutFormat};
use xkcd_cli::render::escape_json;

fn example_comic() -> Comic {
    Comic {
        title: String::from("Example"),
        num: 2500,
        date: String::from("3-6-2021"),
        desc: String::from("A joke."),
        img_url: String::from("https://imgs.xkcd.com/comics/example.png"),
    }
}

#[test]
fn text_rendering_exposes_all_fields() {
    let out = example_comic().render(OutFormat::Text);
    assert_eq!(
        out,
        "Title: Example\nNumber: 2500\nDate: 3-6-2021\nDescription: A joke.\n\
         Image: https://imgs.xkcd.com/comics/example.png"
    );
}

#[test]
fn json_rendering_exposes_all_fields() {
    let out = example_comic().render(OutFormat::JSON);
    assert_eq!(
        out,
        "{\"title\":\"Example\",\"num\":2500,\"date\":\"3-6-2021\",\
         \"desc\":\"A joke.\",\"img_url\":\"https://imgs.xkcd.com/comics/example.png\"}"
    );
}

#[test]
fn json_rendering_is_valid_json_with_matching_values() {
    let out = example_comic().render(OutFormat::JSON);
    let value: serde_json::Value = serde_json::from_str(&out).unwrap();
    assert_eq!(value.get("title").unwrap().as_str().unwrap(), "Example");
    assert_eq!(value.get("num").unwrap().as_u64().unwrap(), 2500);
    assert_eq!(value.get("date").unwrap().as_str().unwrap(), "3-6-2021");
    assert_eq!(value.get("desc").unwrap().as_str().unwrap(), "A joke.");
    assert_eq!(
        value.get("img_url").unwrap().as_str().unwrap(),
        "https://imgs.xkcd.com/comics/example.png"
    );
}

#[test]
fn both_formats_carry_the_same_values() {
    let comic = example_comic();
    let text = comic.render(OutFormat::Text);
    let json = comic.render(OutFormat::JSON);
    for value in ["Example", "2500", "3-6-2021", "A joke."] {
        assert!(text.contains(value));
        assert!(json.contains(value));
    }
}

#[test]
fn escaping_handles_special_characters() {
    assert_eq!(escape_json("plain"), "plain");
    assert_eq!(escape_json("a \"quote\""), "a \\\"quote\\\"");
    assert_eq!(escape_json("back\\slash"), "back\\\\slash");
    assert_eq!(escape_json("line\nbreak\ttab\rret"), "line\\nbreak\\ttab\\rret");
    assert_eq!(escape_json("ctl:\u{01}\u{1f}"), "ctl:\\u0001\\u001f");
}

#[test]
fn escaped_title_round_trips_through_json() {
    let mut comic = example_comic();
    comic.title = String::from("A \"tricky\"\ntitle \\ with\u{02}controls");
    let out = comic.render(OutFormat::JSON);
    let value: serde_json::Value = serde_json::from_str(&out).unwrap();
    assert_eq!(
        value.get("title").unwrap().as_str().unwrap(),
        "A \"tricky\"\ntitle \\ with\u{02}controls"
    );
}
