use crossfont::BitmapBuffer;
use crossfont::Error;
use crossfont::FontDesc;
use crossfont::FontKey;
use crossfont::Info;
use crossfont::KeyCounter;
use crossfont::RasterizeExt;
use crossfont::RasterizedGlyph;
use crossfont::Style;

#[test]
fn default_glyph_is_blank() {
    let glyph = RasterizedGlyph::default();
    assert_eq!(glyph.character, ' ');
    assert_eq!(glyph.width, 0);
    assert_eq!(glyph.height, 0);
    assert_eq!(glyph.top, 0);
    assert_eq!(glyph.left, 0);
    assert_eq!(glyph.advance, (0, 0));
    match glyph.buffer {
        BitmapBuffer::Rgb(bytes) => assert!(bytes.is_empty()),
        BitmapBuffer::Rgba(_) => panic!("default buffer must be an Rgb alphamask"),
    }
}

#[test]
fn cloned_glyph_keeps_pixels() {
    let glyph = RasterizedGlyph {
        character: 'g',
        width: 2,
        height: 1,
        top: 3,
        left: -1,
        advance: (4, 0),
        buffer: BitmapBuffer::Rgba(vec![1, 2, 3, 4, 5, 6, 7, 8]),
    };
    let copy = glyph.clone();
    assert_eq!(copy.character, 'g');
    assert_eq!(copy.width, 2);
    assert_eq!(copy.height, 1);
    assert_eq!(copy.top, 3);
    assert_eq!(copy.left, -1);
    assert_eq!(copy.advance, (4, 0));
    match copy.buffer {
        BitmapBuffer::Rgba(bytes) => assert_eq!(bytes, vec![1, 2, 3, 4, 5, 6, 7, 8]),
        BitmapBuffer::Rgb(_) => panic!("clone must keep the buffer variant"),
    }
}

#[test]
fn error_messages_name_the_failure() {
    let desc = FontDesc::new(String::from("Menlo"), Style::Specific(String::from("Regular")));
    assert_eq!(Error::FontNotFound(desc).message().as_str(), "font Menlo not found");
    assert_eq!(Error::MetricsNotFound.message().as_str(), "metrics not found");
    assert_eq!(
        Error::MissingGlyph(RasterizedGlyph::default()).message().as_str(),
        "glyph not found"
    );
    assert_eq!(Error::UnknownFontKey.message().as_str(), "invalid font key");
    assert_eq!(
        Error::PlatformError(String::from("font service unavailable")).message().as_str(),
        "font service unavailable"
    );
}

struct NoShaping;

impl RasterizeExt for NoShaping {
    fn shape(&mut self, text: &str, _font_key: FontKey) -> Vec<Info> {
        // A backend without a shaping engine falls back to one glyph per
        // character, each mapping back to its own cluster.
        text.chars()
            .enumerate()
            .map(|(i, c)| Info { codepoint: c as u32, cluster: i as u32 })
            .collect()
    }
}

#[test]
fn shaping_extension_is_callable() {
    let mut counter = KeyCounter::new();
    let font = FontKey::next(&mut counter);
    let mut backend = NoShaping;
    let shaped = backend.shape("ab", font);
    assert_eq!(shaped.len(), 2);
    assert_eq!(shaped[0].codepoint, 'a' as u32);
    assert_eq!(shaped[0].cluster, 0);
    assert_eq!(shaped[1].codepoint, 'b' as u32);
    assert_eq!(shaped[1].cluster, 1);
}
