use xp_md2html::render::format::OutputFormat;
use xp_md2html::render::source::{mime_for_extension, mime_for_lowered_extension};

#[test]
fn formats_have_the_names_of_the_image_tool() {
    assert_eq!(OutputFormat::Png.as_str(), "png");
    assert_eq!(OutputFormat::Jpg.as_str(), "jpg");
    assert_eq!(OutputFormat::Jpeg.as_str(), "jpeg");
    assert_eq!(OutputFormat::Pdf.as_str(), "pdf");
}

#[test]
fn exact_takes_the_four_names_only() {
    assert_eq!(OutputFormat::exact("png"), Some(OutputFormat::Png));
    assert_eq!(OutputFormat::exact("jpg"), Some(OutputFormat::Jpg));
    assert_eq!(OutputFormat::exact("jpeg"), Some(OutputFormat::Jpeg));
    assert_eq!(OutputFormat::exact("pdf"), Some(OutputFormat::Pdf));
    assert_eq!(OutputFormat::exact("PNG"), None);
    assert_eq!(OutputFormat::exact("gif"), None);
    assert_eq!(OutputFormat::exact(""), None);
    assert_eq!(OutputFormat::exact("png "), None);
    for format in [OutputFormat::Png, OutputFormat::Jpg, OutputFormat::Jpeg, OutputFormat::Pdf] {
        assert_eq!(OutputFormat::exact(format.as_str()), Some(format));
    }
}

#[test]
fn parse_disregards_case() {
    assert_eq!(OutputFormat::parse("png"), Some(OutputFormat::Png));
    assert_eq!(OutputFormat::parse("PNG"), Some(OutputFormat::Png));
    assert_eq!(OutputFormat::parse("Jpg"), Some(OutputFormat::Jpg));
    assert_eq!(OutputFormat::parse("JPEG"), Some(OutputFormat::Jpeg));
    assert_eq!(OutputFormat::parse("pDf"), Some(OutputFormat::Pdf));
    assert_eq!(OutputFormat::parse("webp"), None);
    assert_eq!(OutputFormat::parse(""), None);
}

#[test]
fn source_mime_is_told_by_the_extension() {
    assert_eq!(mime_for_extension(Some("html")), "text/html");
    assert_eq!(mime_for_extension(Some("htm")), "text/html");
    assert_eq!(mime_for_extension(Some("svg")), "image/svg+xml");
    assert_eq!(mime_for_extension(Some("xml")), "application/xml");
    assert_eq!(mime_for_extension(Some("SVG")), "image/svg+xml");
    assert_eq!(mime_for_extension(Some("Xml")), "application/xml");
    assert_eq!(mime_for_extension(Some("txt")), "text/html");
    assert_eq!(mime_for_extension(Some("")), "text/html");
    assert_eq!(mime_for_extension(None), "text/html");
}

#[test]
fn lowered_extension_is_compared_letter_for_letter() {
    assert_eq!(mime_for_lowered_extension("svg"), "image/svg+xml");
    assert_eq!(mime_for_lowered_extension("SVG"), "text/html");
    assert_eq!(mime_for_lowered_extension("xml"), "application/xml");
    assert_eq!(mime_for_lowered_extension("md"), "text/html");
}
