use xkcd_cli::error::PipelineError;
use xkcd_cli::model::OutFormat;
use xkcd_cli::model::Args;
use xkcd_cli::model::ComicResponse;
use xkcd_cli::pipeline::XkcdCli;

const FULL_BODY: &str = "{\
        \"month\": \"6\", \"num\": 2500, \"link\": \"\", \"year\": \"2021\", \
        \"news\": \"\", \"safe_title\": \"Example\", \"transcript\": \"\", \
        \"alt\": \"A joke.\", \"img\": \"https://imgs.xkcd.com/comics/example.png\", \
        \"title\": \"Example\", \"day\": \"3\"}";

#[test]
fn decode_well_formed_body() {
    let record = ComicResponse::decode(FULL_BODY).unwrap();
    assert_eq!(record.month, "6");
    assert_eq!(record.num, 2500);
    assert_eq!(record.link, "");
    assert_eq!(record.year, "2021");
    assert_eq!(record.news, "");
    assert_eq!(record.safe_title, "Example");
    assert_eq!(record.transcript, "");
    assert_eq!(record.alt, "A joke.");
    assert_eq!(record.img, "https://imgs.xkcd.com/comics/example.png");
    assert_eq!(record.title, "Example");
    assert_eq!(record.day, "3");
}

#[test]
fn decode_missing_alt_fails() {
    let body = "{\
        \"month\": \"6\", \"num\": 2500, \"link\": \"\", \"year\": \"2021\", \
        \"news\": \"\", \"safe_title\": \"Example\", \"transcript\": \"\", \
        \"img\": \"x\", \"title\": \"Example\", \"day\": \"3\"}";
    assert_eq!(ComicResponse::decode(body).err(), Some(PipelineError::Decode));
}

#[test]
fn decode_malformed_body_fails() {
    assert_eq!(
        ComicResponse::decode("this is not valid structured data").err(),
        Some(PipelineError::Decode)
    );
    assert_eq!(ComicResponse::decode("").err(), Some(PipelineError::Decode));
    assert_eq!(ComicResponse::decode("[1, 2, 3]").err(), Some(PipelineError::Decode));
}

#[test]
fn decode_wrong_field_shape_fails() {
    // `num` as a string is the wrong shape.
    let body = "{\
        \"month\": \"6\", \"num\": \"2500\", \"link\": \"\", \"year\": \"2021\", \
        \"news\": \"\", \"safe_title\": \"Example\", \"transcript\": \"\", \
        \"alt\": \"A joke.\", \"img\": \"x\", \"title\": \"Example\", \"day\": \"3\"}";
    assert_eq!(ComicResponse::decode(body).err(), Some(PipelineError::Decode));
    // a fractional `num` is the wrong shape.
    let body = body.replace("\"2500\"", "2500.5");
    assert_eq!(ComicResponse::decode(&body).err(), Some(PipelineError::Decode));
    // a non-positive `num` is the wrong shape.
    let body = body.replace("2500.5", "0");
    assert_eq!(ComicResponse::decode(&body).err(), Some(PipelineError::Decode));
    // a string field given as a number is the wrong shape.
    let body = FULL_BODY.replace("\"month\": \"6\"", "\"month\": 6");
    assert_eq!(ComicResponse::decode(&body).err(), Some(PipelineError::Decode));
}

#[test]
fn process_body_renders_well_formed_body() {
    let args = Args { save: false, timeout: 30, num: 0, output: OutFormat::Text };
    let cli = XkcdCli::new(args);
    let (comic, out) = cli.process_body(FULL_BODY).unwrap();
    assert_eq!(comic.num, 2500);
    assert_eq!(
        out,
        "Title: Example\nNumber: 2500\nDate: 3-6-2021\nDescription: A joke.\n\
         Image: https://imgs.xkcd.com/comics/example.png"
    );
}

#[test]
fn process_body_fails_on_malformed_body() {
    let args = Args { save: false, timeout: 30, num: 0, output: OutFormat::Text };
    let cli = XkcdCli::new(args);
    assert_eq!(
        cli.process_body("not a body").map(|(_, out)| out),
        Err(PipelineError::Decode)
    );
}
