//! The table from file extensions to MIME types.

use vstd::prelude::*;
use super::table::{ascending, ascending_between, lemma_ascending_join, pairs_of, precedes_at};

verus! {

/// File extensions, without the dot, each with its MIME type, in ascending
/// order of the extension. The empty extension stands for arbitrary bytes.
pub const MIME_TYPES: [(&'static str, &'static str); 132] = [
    ("", "application/octet-stream"),
    ("3g2", "video/3gpp2"),
    ("3gp", "video/3gpp"),
    ("3gpp", "video/3gpp"),
    ("7z", "application/x-7z-compressed"),
    ("aac", "audio/aac"),
    ("ai", "application/postscript"),
    ("asf", "video/x-ms-asf"),
    ("asx", "video/x-ms-asf"),
    ("atom", "application/atom+xml"),
    ("avi", "video/x-msvideo"),
    ("avif", "image/avif"),
    ("bin", "application/octet-stream"),
    ("bmp", "image/bmp"),
    ("bz2", "application/x-bzip2"),
    ("cco", "application/x-cocoa"),
    ("crt", "application/x-x509-ca-cert"),
    ("css", "text/css"),
    ("csv", "text/csv"),
    ("deb", "application/octet-stream"),
    ("der", "application/x-x509-ca-cert"),
    ("dll", "application/octet-stream"),
    ("dmg", "application/octet-stream"),
    ("doc", "application/msword"),
    ("docx", "application/vnd.openxmlformats-officedocument.wordprocessingml.document"),
    ("ear", "application/java-archive"),
    ("eot", "application/vnd.ms-fontobject"),
    ("eps", "application/postscript"),
    ("epub", "application/epub+zip"),
    ("exe", "application/octet-stream"),
    ("flac", "audio/flac"),
    ("flv", "video/x-flv"),
    ("gif", "image/gif"),
    ("gz", "application/gzip"),
    ("hqx", "application/mac-binhex40"),
    ("htc", "text/x-component"),
    ("htm", "text/html"),
    ("html", "text/html"),
    ("ico", "image/x-icon"),
    ("ics", "text/calendar"),
    ("img", "application/octet-stream"),
    ("iso", "application/octet-stream"),
    ("jad", "text/vnd.sun.j2me.app-descriptor"),
    ("jar", "application/java-archive"),
    ("jardiff", "application/x-java-archive-diff"),
    ("jng", "image/x-jng"),
    ("jnlp", "application/x-java-jnlp-file"),
    ("jpe", "image/jpeg"),
    ("jpeg", "image/jpeg"),
    ("jpg", "image/jpeg"),
    ("js", "application/javascript"),
    ("json", "application/json"),
    ("kar", "audio/midi"),
    ("kml", "application/vnd.google-earth.kml+xml"),
    ("kmz", "application/vnd.google-earth.kmz"),
    ("m3u8", "application/vnd.apple.mpegurl"),
    ("m4a", "audio/mp4"),
    ("m4v", "video/x-m4v"),
    ("md", "text/markdown"),
    ("mid", "audio/midi"),
    ("midi", "audio/midi"),
    ("mjs", "application/javascript"),
    ("mml", "text/mathml"),
    ("mng", "video/x-mng"),
    ("mov", "video/quicktime"),
    ("mp3", "audio/mpeg"),
    ("mp4", "video/mp4"),
    ("mpeg", "video/mpeg"),
    ("mpg", "video/mpeg"),
    ("msi", "application/octet-stream"),
    ("msm", "application/octet-stream"),
    ("msp", "application/octet-stream"),
    ("odg", "application/vnd.oasis.opendocument.graphics"),
    ("odp", "application/vnd.oasis.opendocument.presentation"),
    ("ods", "application/vnd.oasis.opendocument.spreadsheet"),
    ("odt", "application/vnd.oasis.opendocument.text"),
    ("oga", "audio/ogg"),
    ("ogg", "audio/ogg"),
    ("ogv", "video/ogg"),
    ("otf", "font/otf"),
    ("pdb", "application/x-pilot"),
    ("pdf", "application/pdf"),
    ("pem", "application/x-x509-ca-cert"),
    ("pl", "application/x-perl"),
    ("pm", "application/x-perl"),
    ("png", "image/png"),
    ("ppt", "application/vnd.ms-powerpoint"),
    ("pptx", "application/vnd.openxmlformats-officedocument.presentationml.presentation"),
    ("prc", "application/x-pilot"),
    ("ps", "application/postscript"),
    ("ra", "audio/x-realaudio"),
    ("rar", "application/vnd.rar"),
    ("rpm", "application/x-redhat-package-manager"),
    ("rss", "application/rss+xml"),
    ("rtf", "application/rtf"),
    ("run", "application/x-makeself"),
    ("sea", "application/x-sea"),
    ("sh", "application/x-sh"),
    ("shtml", "text/html"),
    ("sit", "application/x-stuffit"),
    ("svg", "image/svg+xml"),
    ("svgz", "image/svg+xml"),
    ("swf", "application/x-shockwave-flash"),
    ("tar", "application/x-tar"),
    ("tcl", "application/x-tcl"),
    ("tif", "image/tiff"),
    ("tiff", "image/tiff"),
    ("tk", "application/x-tcl"),
    ("ts", "video/mp2t"),
    ("ttf", "font/ttf"),
    ("txt", "text/plain"),
    ("war", "application/java-archive"),
    ("wasm", "application/wasm"),
    ("wav", "audio/wav"),
    ("wbmp", "image/vnd.wap.wbmp"),
    ("weba", "audio/webm"),
    ("webm", "video/webm"),
    ("webp", "image/webp"),
    ("wml", "text/vnd.wap.wml"),
    ("wmlc", "application/vnd.wap.wmlc"),
    ("wmv", "video/x-ms-wmv"),
    ("woff", "font/woff"),
    ("woff2", "font/woff2"),
    ("xhtml", "application/xhtml+xml"),
    ("xls", "application/vnd.ms-excel"),
    ("xlsx", "application/vnd.openxmlformats-officedocument.spreadsheetml.sheet"),
    ("xml", "application/xml"),
    ("xpi", "application/x-xpinstall"),
    ("xspf", "application/xspf+xml"),
    ("yaml", "application/yaml"),
    ("yml", "application/yaml"),
    ("zip", "application/zip"),
];

proof fn lemma_extensions_ascend_0_13()
    ensures
        ascending_between(pairs_of(MIME_TYPES@), 0, 13),
{
    let e = pairs_of(MIME_TYPES@);
    reveal_strlit("");
    reveal_strlit("3g2");
    reveal_strlit("3gp");
    reveal_strlit("3gpp");
    reveal_strlit("7z");
    reveal_strlit("aac");
    reveal_strlit("ai");
    reveal_strlit("asf");
    reveal_strlit("asx");
    reveal_strlit("atom");
    reveal_strlit("avi");
    reveal_strlit("avif");
    reveal_strlit("bin");
    reveal_strlit("bmp");
    reveal_with_fuel(ascending_between, 15);
    assert(precedes_at(e[0].0, e[1].0, 0));
    assert(precedes_at(e[1].0, e[2].0, 2));
    assert(precedes_at(e[2].0, e[3].0, 3));
    assert(precedes_at(e[3].0, e[4].0, 0));
    assert(precedes_at(e[4].0, e[5].0, 0));
    assert(precedes_at(e[5].0, e[6].0, 1));
    assert(precedes_at(e[6].0, e[7].0, 1));
    assert(precedes_at(e[7].0, e[8].0, 2));
    assert(precedes_at(e[8].0, e[9].0, 1));
    assert(precedes_at(e[9].0, e[10].0, 1));
    assert(precedes_at(e[10].0, e[11].0, 3));
    assert(precedes_at(e[11].0, e[12].0, 0));
    assert(precedes_at(e[12].0, e[13].0, 1));
}

proof fn lemma_extensions_ascend_13_26()
    ensures
        ascending_between(pairs_of(MIME_TYPES@), 13, 26),
{
    let e = pairs_of(MIME_TYPES@);
    reveal_strlit("bmp");
    reveal_strlit("bz2");
    reveal_strlit("cco");
    reveal_strlit("crt");
    reveal_strlit("css");
    reveal_strlit("csv");
    reveal_strlit("deb");
    reveal_strlit("der");
    reveal_strlit("dll");
    reveal_strlit("dmg");
    reveal_strlit("doc");
    reveal_strlit("docx");
    reveal_strlit("ear");
    reveal_strlit("eot");
    reveal_with_fuel(ascending_between, 15);
    assert(precedes_at(e[13].0, e[14].0, 1));
    assert(precedes_at(e[14].0, e[15].0, 0));
    assert(precedes_at(e[15].0, e[16].0, 1));
    assert(precedes_at(e[16].0, e[17].0, 1));
    assert(precedes_at(e[17].0, e[18].0, 2));
    assert(precedes_at(e[18].0, e[19].0, 0));
    assert(precedes_at(e[19].0, e[20].0, 2));
    assert(precedes_at(e[20].0, e[21].0, 1));
    assert(precedes_at(e[21].0, e[22].0, 1));
    assert(precedes_at(e[22].0, e[23].0, 1));
    assert(precedes_at(e[23].0, e[24].0, 3));
    assert(precedes_at(e[24].0, e[25].0, 0));
    assert(precedes_at(e[25].0, e[26].0, 1));
}

proof fn lemma_extensions_ascend_26_39()
    ensures
        ascending_between(pairs_of(MIME_TYPES@), 26, 39),
{
    let e = pairs_of(MIME_TYPES@);
    reveal_strlit("eot");
    reveal_strlit("eps");
    reveal_strlit("epub");
    reveal_strlit("exe");
    reveal_strlit("flac");
    reveal_strlit("flv");
    reveal_strlit("gif");
    reveal_strlit("gz");
    reveal_strlit("hqx");
    reveal_strlit("htc");
    reveal_strlit("htm");
    reveal_strlit("html");
    reveal_strlit("ico");
    reveal_strlit("ics");
    reveal_with_fuel(ascending_between, 15);
    assert(precedes_at(e[26].0, e[27].0, 1));
    assert(precedes_at(e[27].0, e[28].0, 2));
    assert(precedes_at(e[28].0, e[29].0, 1));
    assert(precedes_at(e[29].0, e[30].0, 0));
    assert(precedes_at(e[30].0, e[31].0, 2));
    assert(precedes_at(e[31].0, e[32].0, 0));
    assert(precedes_at(e[32].0, e[33].0, 1));
    assert(precedes_at(e[33].0, e[34].0, 0));
    assert(precedes_at(e[34].0, e[35].0, 1));
    assert(precedes_at(e[35].0, e[36].0, 2));
    assert(precedes_at(e[36].0, e[37].0, 3));
    assert(precedes_at(e[37].0, e[38].0, 0));
    assert(precedes_at(e[38].0, e[39].0, 2));
}

proof fn lemma_extensions_ascend_39_52()
    ensures
        ascending_between(pairs_of(MIME_TYPES@), 39, 52),
{
    let e = pairs_of(MIME_TYPES@);
    reveal_strlit("ics");
    reveal_strlit("img");
    reveal_strlit("iso");
    reveal_strlit("jad");
    reveal_strlit("jar");
    reveal_strlit("jardiff");
    reveal_strlit("jng");
    reveal_strlit("jnlp");
    reveal_strlit("jpe");
    reveal_strlit("jpeg");
    reveal_strlit("jpg");
    reveal_strlit("js");
    reveal_strlit("json");
    reveal_strlit("kar");
    reveal_with_fuel(ascending_between, 15);
    assert(precedes_at(e[39].0, e[40].0, 1));
    assert(precedes_at(e[40].0, e[41].0, 1));
    assert(precedes_at(e[41].0, e[42].0, 0));
    assert(precedes_at(e[42].0, e[43].0, 2));
    assert(precedes_at(e[43].0, e[44].0, 3));
    assert(precedes_at(e[44].0, e[45].0, 1));
    assert(precedes_at(e[45].0, e[46].0, 2));
    assert(precedes_at(e[46].0, e[47].0, 1));
    assert(precedes_at(e[47].0, e[48].0, 3));
    assert(precedes_at(e[48].0, e[49].0, 2));
    assert(precedes_at(e[49].0, e[50].0, 1));
    assert(precedes_at(e[50].0, e[51].0, 2));
    assert(precedes_at(e[51].0, e[52].0, 0));
}

proof fn lemma_extensions_ascend_52_65()
    ensures
        ascending_between(pairs_of(MIME_TYPES@), 52, 65),
{
    let e = pairs_of(MIME_TYPES@);
    reveal_strlit("kar");
    reveal_strlit("kml");
    reveal_strlit("kmz");
    reveal_strlit("m3u8");
    reveal_strlit("m4a");
    reveal_strlit("m4v");
    reveal_strlit("md");
    reveal_strlit("mid");
    reveal_strlit("midi");
    reveal_strlit("mjs");
    reveal_strlit("mml");
    reveal_strlit("mng");
    reveal_strlit("mov");
    reveal_strlit("mp3");
    reveal_with_fuel(ascending_between, 15);
    assert(precedes_at(e[52].0, e[53].0, 1));
    assert(precedes_at(e[53].0, e[54].0, 2));
    assert(precedes_at(e[54].0, e[55].0, 0));
    assert(precedes_at(e[55].0, e[56].0, 1));
    assert(precedes_at(e[56].0, e[57].0, 2));
    assert(precedes_at(e[57].0, e[58].0, 1));
    assert(precedes_at(e[58].0, e[59].0, 1));
    assert(precedes_at(e[59].0, e[60].0, 3));
    assert(precedes_at(e[60].0, e[61].0, 1));
    assert(precedes_at(e[61].0, e[62].0, 1));
    assert(precedes_at(e[62].0, e[63].0, 1));
    assert(precedes_at(e[63].0, e[64].0, 1));
    assert(precedes_at(e[64].0, e[65].0, 1));
}

proof fn lemma_extensions_ascend_65_78()
    ensures
        ascending_between(pairs_of(MIME_TYPES@), 65, 78),
{
    let e = pairs_of(MIME_TYPES@);
    reveal_strlit("mp3");
    reveal_strlit("mp4");
    reveal_strlit("mpeg");
    reveal_strlit("mpg");
    reveal_strlit("msi");
    reveal_strlit("msm");
    reveal_strlit("msp");
    reveal_strlit("odg");
    reveal_strlit("odp");
    reveal_strlit("ods");
    reveal_strlit("odt");
    reveal_strlit("oga");
    reveal_strlit("ogg");
    reveal_strlit("ogv");
    reveal_with_fuel(ascending_between, 15);
    assert(precedes_at(e[65].0, e[66].0, 2));
    assert(precedes_at(e[66].0, e[67].0, 2));
    assert(precedes_at(e[67].0, e[68].0, 2));
    assert(precedes_at(e[68].0, e[69].0, 1));
    assert(precedes_at(e[69].0, e[70].0, 2));
    assert(precedes_at(e[70].0, e[71].0, 2));
    assert(precedes_at(e[71].0, e[72].0, 0));
    assert(precedes_at(e[72].0, e[73].0, 2));
    assert(precedes_at(e[73].0, e[74].0, 2));
    assert(precedes_at(e[74].0, e[75].0, 2));
    assert(precedes_at(e[75].0, e[76].0, 1));
    assert(precedes_at(e[76].0, e[77].0, 2));
    assert(precedes_at(e[77].0, e[78].0, 2));
}

proof fn lemma_extensions_ascend_78_91()
    ensures
        ascending_between(pairs_of(MIME_TYPES@), 78, 91),
{
    let e = pairs_of(MIME_TYPES@);
    reveal_strlit("ogv");
    reveal_strlit("otf");
    reveal_strlit("pdb");
    reveal_strlit("pdf");
    reveal_strlit("pem");
    reveal_strlit("pl");
    reveal_strlit("pm");
    reveal_strlit("png");
    reveal_strlit("ppt");
    reveal_strlit("pptx");
    reveal_strlit("prc");
    reveal_strlit("ps");
    reveal_strlit("ra");
    reveal_strlit("rar");
    reveal_with_fuel(ascending_between, 15);
    assert(precedes_at(e[78].0, e[79].0, 1));
    assert(precedes_at(e[79].0, e[80].0, 0));
    assert(precedes_at(e[80].0, e[81].0, 2));
    assert(precedes_at(e[81].0, e[82].0, 1));
    assert(precedes_at(e[82].0, e[83].0, 1));
    assert(precedes_at(e[83].0, e[84].0, 1));
    assert(precedes_at(e[84].0, e[85].0, 1));
    assert(precedes_at(e[85].0, e[86].0, 1));
    assert(precedes_at(e[86].0, e[87].0, 3));
    assert(precedes_at(e[87].0, e[88].0, 1));
    assert(precedes_at(e[88].0, e[89].0, 1));
    assert(precedes_at(e[89].0, e[90].0, 0));
    assert(precedes_at(e[90].0, e[91].0, 2));
}

proof fn lemma_extensions_ascend_91_104()
    ensures
        ascending_between(pairs_of(MIME_TYPES@), 91, 104),
{
    let e = pairs_of(MIME_TYPES@);
    reveal_strlit("rar");
    reveal_strlit("rpm");
    reveal_strlit("rss");
    reveal_strlit("rtf");
    reveal_strlit("run");
    reveal_strlit("sea");
    reveal_strlit("sh");
    reveal_strlit("shtml");
    reveal_strlit("sit");
    reveal_strlit("svg");
    reveal_strlit("svgz");
    reveal_strlit("swf");
    reveal_strlit("tar");
    reveal_strlit("tcl");
    reveal_with_fuel(ascending_between, 15);
    assert(precedes_at(e[91].0, e[92].0, 1));
    assert(precedes_at(e[92].0, e[93].0, 1));
    assert(precedes_at(e[93].0, e[94].0, 1));
    assert(precedes_at(e[94].0, e[95].0, 1));
    assert(precedes_at(e[95].0, e[96].0, 0));
    assert(precedes_at(e[96].0, e[97].0, 1));
    assert(precedes_at(e[97].0, e[98].0, 2));
    assert(precedes_at(e[98].0, e[99].0, 1));
    assert(precedes_at(e[99].0, e[100].0, 1));
    assert(precedes_at(e[100].0, e[101].0, 3));
    assert(precedes_at(e[101].0, e[102].0, 1));
    assert(precedes_at(e[102].0, e[103].0, 0));
    assert(precedes_at(e[103].0, e[104].0, 1));
}

proof fn lemma_extensions_ascend_104_117()
    ensures
        ascending_between(pairs_of(MIME_TYPES@), 104, 117),
{
    let e = pairs_of(MIME_TYPES@);
    reveal_strlit("tcl");
    reveal_strlit("tif");
    reveal_strlit("tiff");
    reveal_strlit("tk");
    reveal_strlit("ts");
    reveal_strlit("ttf");
    reveal_strlit("txt");
    reveal_strlit("war");
    reveal_strlit("wasm");
    reveal_strlit("wav");
    reveal_strlit("wbmp");
    reveal_strlit("weba");
    reveal_strlit("webm");
    reveal_strlit("webp");
    reveal_with_fuel(ascending_between, 15);
    assert(precedes_at(e[104].0, e[105].0, 1));
    assert(precedes_at(e[105].0, e[106].0, 3));
    assert(precedes_at(e[106].0, e[107].0, 1));
    assert(precedes_at(e[107].0, e[108].0, 1));
    assert(precedes_at(e[108].0, e[109].0, 1));
    assert(precedes_at(e[109].0, e[110].0, 1));
    assert(precedes_at(e[110].0, e[111].0, 0));
    assert(precedes_at(e[111].0, e[112].0, 2));
    assert(precedes_at(e[112].0, e[113].0, 2));
    assert(precedes_at(e[113].0, e[114].0, 1));
    assert(precedes_at(e[114].0, e[115].0, 1));
    assert(precedes_at(e[115].0, e[116].0, 3));
    assert(precedes_at(e[116].0, e[117].0, 3));
}

proof fn lemma_extensions_ascend_117_130()
    ensures
        ascending_between(pairs_of(MIME_TYPES@), 117, 130),
{
    let e = pairs_of(MIME_TYPES@);
    reveal_strlit("webp");
    reveal_strlit("wml");
    reveal_strlit("wmlc");
    reveal_strlit("wmv");
    reveal_strlit("woff");
    reveal_strlit("woff2");
    reveal_strlit("xhtml");
    reveal_strlit("xls");
    reveal_strlit("xlsx");
    reveal_strlit("xml");
    reveal_strlit("xpi");
    reveal_strlit("xspf");
    reveal_strlit("yaml");
    reveal_strlit("yml");
    reveal_with_fuel(ascending_between, 15);
    assert(precedes_at(e[117].0, e[118].0, 1));
    assert(precedes_at(e[118].0, e[119].0, 3));
    assert(precedes_at(e[119].0, e[120].0, 2));
    assert(precedes_at(e[120].0, e[121].0, 1));
    assert(precedes_at(e[121].0, e[122].0, 4));
    assert(precedes_at(e[122].0, e[123].0, 0));
    assert(precedes_at(e[123].0, e[124].0, 1));
    assert(precedes_at(e[124].0, e[125].0, 3));
    assert(precedes_at(e[125].0, e[126].0, 1));
    assert(precedes_at(e[126].0, e[127].0, 1));
    assert(precedes_at(e[127].0, e[128].0, 1));
    assert(precedes_at(e[128].0, e[129].0, 0));
    assert(precedes_at(e[129].0, e[130].0, 1));
}

proof fn lemma_extensions_ascend_130_131()
    ensures
        ascending_between(pairs_of(MIME_TYPES@), 130, 131),
{
    let e = pairs_of(MIME_TYPES@);
    reveal_strlit("yml");
    reveal_strlit("zip");
    reveal_with_fuel(ascending_between, 3);
    assert(precedes_at(e[130].0, e[131].0, 0));
}

/// The extensions of the table stand in strictly ascending order, so none
/// occurs twice.
pub proof fn lemma_extensions_ascend()
    ensures
        ascending(pairs_of(MIME_TYPES@)),
{
    let e = pairs_of(MIME_TYPES@);
    lemma_extensions_ascend_0_13();
    lemma_extensions_ascend_13_26();
    lemma_extensions_ascend_26_39();
    lemma_extensions_ascend_39_52();
    lemma_extensions_ascend_52_65();
    lemma_extensions_ascend_65_78();
    lemma_extensions_ascend_78_91();
    lemma_extensions_ascend_91_104();
    lemma_extensions_ascend_104_117();
    lemma_extensions_ascend_117_130();
    lemma_extensions_ascend_130_131();
    lemma_ascending_join(e, 0, 13, 26);
    lemma_ascending_join(e, 0, 26, 39);
    lemma_ascending_join(e, 0, 39, 52);
    lemma_ascending_join(e, 0, 52, 65);
    lemma_ascending_join(e, 0, 65, 78);
    lemma_ascending_join(e, 0, 78, 91);
    lemma_ascending_join(e, 0, 91, 104);
    lemma_ascending_join(e, 0, 104, 117);
    lemma_ascending_join(e, 0, 117, 130);
    lemma_ascending_join(e, 0, 130, 131);
}

} // verus!
