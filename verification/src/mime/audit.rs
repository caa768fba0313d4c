//! The audit of the pinned extensions: every MIME type that several
//! extensions share has a pinned extension.

use vstd::prelude::*;
use super::mapping::MIME_TYPES;
use super::reversed::SUFFIX_OVERRIDES;
use super::table::{
    binding, grouped_between, lemma_binding_none, lemma_grouped_join, lemma_placed_join,
    lemma_shared_value_bound, pairs_of, placed_between, precedes_at,
};

verus! {

/// The positions of the table of extensions in the order of their MIME
/// types, so that positions with the same MIME type stand side by side.
pub open spec fn by_mime() -> Seq<int> {
    seq![
        9, 28, 33, 25, 43, 111, 50, 61, 51, 34, 23, 0,
        12, 19, 21, 22, 29, 40, 41, 69, 70, 71, 81, 6,
        27, 89, 93, 94, 55, 53, 54, 124, 26, 86, 72, 73,
        74, 75, 87, 125, 24, 91, 119, 112, 4, 14, 15, 44,
        46, 95, 83, 84, 80, 88, 92, 96, 97, 102, 99, 103,
        104, 107, 16, 20, 82, 127, 123, 126, 128, 129, 130, 131,
        5, 30, 52, 59, 60, 56, 65, 76, 77, 113, 115, 90,
        79, 109, 121, 122, 11, 13, 32, 47, 48, 49, 85, 100,
        101, 105, 106, 114, 117, 38, 45, 39, 17, 18, 36, 37,
        98, 58, 62, 110, 42, 118, 35, 2, 3, 1, 108, 66,
        67, 68, 78, 64, 116, 31, 57, 63, 7, 8, 120, 10,
    ]
}

/// For each position of the table of extensions, its place in `by_mime`.
pub open spec fn place_by_mime() -> Seq<int> {
    seq![
        11, 117, 115, 116, 44, 72, 23, 128, 129, 0, 131, 88,
        12, 89, 45, 46, 62, 104, 105, 13, 63, 14, 15, 10,
        40, 3, 32, 24, 1, 16, 73, 125, 90, 2, 9, 114,
        106, 107, 101, 103, 17, 18, 112, 4, 47, 102, 48, 91,
        92, 93, 6, 8, 74, 29, 30, 28, 77, 126, 109, 75,
        76, 7, 110, 127, 123, 78, 119, 120, 121, 19, 20, 21,
        34, 35, 36, 37, 79, 80, 122, 84, 52, 22, 64, 50,
        51, 94, 33, 38, 53, 25, 83, 41, 54, 26, 27, 49,
        55, 56, 108, 58, 95, 96, 57, 59, 60, 97, 98, 61,
        118, 85, 111, 5, 43, 81, 99, 82, 124, 100, 113, 42,
        130, 86, 87, 66, 31, 39, 67, 65, 68, 69, 70, 71,
    ]
}

proof fn lemma_grouped_0_11()
    ensures
        grouped_between(pairs_of(MIME_TYPES@), pairs_of(SUFFIX_OVERRIDES@), by_mime(), 0, 11),
{
    let e = pairs_of(MIME_TYPES@);
    let p = pairs_of(SUFFIX_OVERRIDES@);
    reveal_strlit("application/atom+xml");
    reveal_strlit("application/epub+zip");
    reveal_strlit("application/gzip");
    reveal_strlit("application/java-archive");
    reveal_strlit("application/javascript");
    reveal_strlit("application/json");
    reveal_strlit("application/mac-binhex40");
    reveal_strlit("application/msword");
    reveal_strlit("application/octet-stream");
    reveal_with_fuel(grouped_between, 13);
    assert(precedes_at(e[9].1, e[28].1, 12));
    assert(precedes_at(e[28].1, e[33].1, 12));
    assert(precedes_at(e[33].1, e[25].1, 12));
    assert(binding(p, e[25].1) is Some) by {
        lemma_binding_none(p, e[25].1);
        assert(p[0].0 == e[25].1);
    }
    assert(binding(p, e[43].1) is Some) by {
        lemma_binding_none(p, e[43].1);
        assert(p[0].0 == e[43].1);
    }
    assert(precedes_at(e[111].1, e[50].1, 16));
    assert(binding(p, e[50].1) is Some) by {
        lemma_binding_none(p, e[50].1);
        assert(p[1].0 == e[50].1);
    }
    assert(precedes_at(e[61].1, e[51].1, 13));
    assert(precedes_at(e[51].1, e[34].1, 12));
    assert(precedes_at(e[34].1, e[23].1, 13));
    assert(precedes_at(e[23].1, e[0].1, 12));
}

proof fn lemma_grouped_11_22()
    ensures
        grouped_between(pairs_of(MIME_TYPES@), pairs_of(SUFFIX_OVERRIDES@), by_mime(), 11, 22),
{
    let e = pairs_of(MIME_TYPES@);
    let p = pairs_of(SUFFIX_OVERRIDES@);
    reveal_strlit("application/octet-stream");
    reveal_strlit("application/pdf");
    reveal_with_fuel(grouped_between, 13);
    assert(binding(p, e[0].1) is Some) by {
        lemma_binding_none(p, e[0].1);
        assert(p[2].0 == e[0].1);
    }
    assert(binding(p, e[12].1) is Some) by {
        lemma_binding_none(p, e[12].1);
        assert(p[2].0 == e[12].1);
    }
    assert(binding(p, e[19].1) is Some) by {
        lemma_binding_none(p, e[19].1);
        assert(p[2].0 == e[19].1);
    }
    assert(binding(p, e[21].1) is Some) by {
        lemma_binding_none(p, e[21].1);
        assert(p[2].0 == e[21].1);
    }
    assert(binding(p, e[22].1) is Some) by {
        lemma_binding_none(p, e[22].1);
        assert(p[2].0 == e[22].1);
    }
    assert(binding(p, e[29].1) is Some) by {
        lemma_binding_none(p, e[29].1);
        assert(p[2].0 == e[29].1);
    }
    assert(binding(p, e[40].1) is Some) by {
        lemma_binding_none(p, e[40].1);
        assert(p[2].0 == e[40].1);
    }
    assert(binding(p, e[41].1) is Some) by {
        lemma_binding_none(p, e[41].1);
        assert(p[2].0 == e[41].1);
    }
    assert(binding(p, e[69].1) is Some) by {
        lemma_binding_none(p, e[69].1);
        assert(p[2].0 == e[69].1);
    }
    assert(binding(p, e[70].1) is Some) by {
        lemma_binding_none(p, e[70].1);
        assert(p[2].0 == e[70].1);
    }
    assert(precedes_at(e[71].1, e[81].1, 12));
}

proof fn lemma_grouped_22_33()
    ensures
        grouped_between(pairs_of(MIME_TYPES@), pairs_of(SUFFIX_OVERRIDES@), by_mime(), 22, 33),
{
    let e = pairs_of(MIME_TYPES@);
    let p = pairs_of(SUFFIX_OVERRIDES@);
    reveal_strlit("application/pdf");
    reveal_strlit("application/postscript");
    reveal_strlit("application/rss+xml");
    reveal_strlit("application/rtf");
    reveal_strlit("application/vnd.apple.mpegurl");
    reveal_strlit("application/vnd.google-earth.kml+xml");
    reveal_strlit("application/vnd.google-earth.kmz");
    reveal_strlit("application/vnd.ms-excel");
    reveal_strlit("application/vnd.ms-fontobject");
    reveal_strlit("application/vnd.ms-powerpoint");
    reveal_with_fuel(grouped_between, 13);
    assert(precedes_at(e[81].1, e[6].1, 13));
    assert(binding(p, e[6].1) is Some) by {
        lemma_binding_none(p, e[6].1);
        assert(p[3].0 == e[6].1);
    }
    assert(binding(p, e[27].1) is Some) by {
        lemma_binding_none(p, e[27].1);
        assert(p[3].0 == e[27].1);
    }
    assert(precedes_at(e[89].1, e[93].1, 12));
    assert(precedes_at(e[93].1, e[94].1, 13));
    assert(precedes_at(e[94].1, e[55].1, 12));
    assert(precedes_at(e[55].1, e[53].1, 16));
    assert(precedes_at(e[53].1, e[54].1, 31));
    assert(precedes_at(e[54].1, e[124].1, 16));
    assert(precedes_at(e[124].1, e[26].1, 19));
    assert(precedes_at(e[26].1, e[86].1, 19));
}

proof fn lemma_grouped_33_44()
    ensures
        grouped_between(pairs_of(MIME_TYPES@), pairs_of(SUFFIX_OVERRIDES@), by_mime(), 33, 44),
{
    let e = pairs_of(MIME_TYPES@);
    let p = pairs_of(SUFFIX_OVERRIDES@);
    reveal_strlit("application/vnd.ms-powerpoint");
    reveal_strlit("application/vnd.oasis.opendocument.graphics");
    reveal_strlit("application/vnd.oasis.opendocument.presentation");
    reveal_strlit("application/vnd.oasis.opendocument.spreadsheet");
    reveal_strlit("application/vnd.oasis.opendocument.text");
    reveal_strlit("application/vnd.openxmlformats-officedocument.presentationml.presentation");
    reveal_strlit("application/vnd.openxmlformats-officedocument.spreadsheetml.sheet");
    reveal_strlit("application/vnd.openxmlformats-officedocument.wordprocessingml.document");
    reveal_strlit("application/vnd.rar");
    reveal_strlit("application/vnd.wap.wmlc");
    reveal_strlit("application/wasm");
    reveal_strlit("application/x-7z-compressed");
    reveal_with_fuel(grouped_between, 13);
    assert(precedes_at(e[86].1, e[72].1, 16));
    assert(precedes_at(e[72].1, e[73].1, 35));
    assert(precedes_at(e[73].1, e[74].1, 35));
    assert(precedes_at(e[74].1, e[75].1, 35));
    assert(precedes_at(e[75].1, e[87].1, 17));
    assert(precedes_at(e[87].1, e[125].1, 46));
    assert(precedes_at(e[125].1, e[24].1, 46));
    assert(precedes_at(e[24].1, e[91].1, 16));
    assert(precedes_at(e[91].1, e[119].1, 16));
    assert(precedes_at(e[119].1, e[112].1, 12));
    assert(precedes_at(e[112].1, e[4].1, 12));
}

proof fn lemma_grouped_44_55()
    ensures
        grouped_between(pairs_of(MIME_TYPES@), pairs_of(SUFFIX_OVERRIDES@), by_mime(), 44, 55),
{
    let e = pairs_of(MIME_TYPES@);
    let p = pairs_of(SUFFIX_OVERRIDES@);
    reveal_strlit("application/x-7z-compressed");
    reveal_strlit("application/x-bzip2");
    reveal_strlit("application/x-cocoa");
    reveal_strlit("application/x-java-archive-diff");
    reveal_strlit("application/x-java-jnlp-file");
    reveal_strlit("application/x-makeself");
    reveal_strlit("application/x-perl");
    reveal_strlit("application/x-pilot");
    reveal_strlit("application/x-redhat-package-manager");
    reveal_strlit("application/x-sea");
    reveal_with_fuel(grouped_between, 13);
    assert(precedes_at(e[4].1, e[14].1, 14));
    assert(precedes_at(e[14].1, e[15].1, 14));
    assert(precedes_at(e[15].1, e[44].1, 14));
    assert(precedes_at(e[44].1, e[46].1, 19));
    assert(precedes_at(e[46].1, e[95].1, 14));
    assert(precedes_at(e[95].1, e[83].1, 14));
    assert(binding(p, e[83].1) is Some) by {
        lemma_binding_none(p, e[83].1);
        assert(p[4].0 == e[83].1);
    }
    assert(precedes_at(e[84].1, e[80].1, 15));
    assert(binding(p, e[80].1) is Some) by {
        lemma_binding_none(p, e[80].1);
        assert(p[5].0 == e[80].1);
    }
    assert(precedes_at(e[88].1, e[92].1, 14));
    assert(precedes_at(e[92].1, e[96].1, 14));
}

proof fn lemma_grouped_55_66()
    ensures
        grouped_between(pairs_of(MIME_TYPES@), pairs_of(SUFFIX_OVERRIDES@), by_mime(), 55, 66),
{
    let e = pairs_of(MIME_TYPES@);
    let p = pairs_of(SUFFIX_OVERRIDES@);
    reveal_strlit("application/x-sea");
    reveal_strlit("application/x-sh");
    reveal_strlit("application/x-shockwave-flash");
    reveal_strlit("application/x-stuffit");
    reveal_strlit("application/x-tar");
    reveal_strlit("application/x-tcl");
    reveal_strlit("application/x-x509-ca-cert");
    reveal_strlit("application/x-xpinstall");
    reveal_strlit("application/xhtml+xml");
    reveal_with_fuel(grouped_between, 13);
    assert(precedes_at(e[96].1, e[97].1, 15));
    assert(precedes_at(e[97].1, e[102].1, 16));
    assert(precedes_at(e[102].1, e[99].1, 15));
    assert(precedes_at(e[99].1, e[103].1, 14));
    assert(precedes_at(e[103].1, e[104].1, 15));
    assert(binding(p, e[104].1) is Some) by {
        lemma_binding_none(p, e[104].1);
        assert(p[6].0 == e[104].1);
    }
    assert(precedes_at(e[107].1, e[16].1, 14));
    assert(binding(p, e[16].1) is Some) by {
        lemma_binding_none(p, e[16].1);
        assert(p[7].0 == e[16].1);
    }
    assert(binding(p, e[20].1) is Some) by {
        lemma_binding_none(p, e[20].1);
        assert(p[7].0 == e[20].1);
    }
    assert(precedes_at(e[82].1, e[127].1, 15));
    assert(precedes_at(e[127].1, e[123].1, 13));
}

proof fn lemma_grouped_66_77()
    ensures
        grouped_between(pairs_of(MIME_TYPES@), pairs_of(SUFFIX_OVERRIDES@), by_mime(), 66, 77),
{
    let e = pairs_of(MIME_TYPES@);
    let p = pairs_of(SUFFIX_OVERRIDES@);
    reveal_strlit("application/xhtml+xml");
    reveal_strlit("application/xml");
    reveal_strlit("application/xspf+xml");
    reveal_strlit("application/yaml");
    reveal_strlit("application/zip");
    reveal_strlit("audio/aac");
    reveal_strlit("audio/flac");
    reveal_strlit("audio/midi");
    reveal_strlit("audio/mp4");
    reveal_with_fuel(grouped_between, 13);
    assert(precedes_at(e[123].1, e[126].1, 13));
    assert(precedes_at(e[126].1, e[128].1, 13));
    assert(precedes_at(e[128].1, e[129].1, 12));
    assert(binding(p, e[129].1) is Some) by {
        lemma_binding_none(p, e[129].1);
        assert(p[8].0 == e[129].1);
    }
    assert(precedes_at(e[130].1, e[131].1, 12));
    assert(precedes_at(e[131].1, e[5].1, 1));
    assert(precedes_at(e[5].1, e[30].1, 6));
    assert(precedes_at(e[30].1, e[52].1, 6));
    assert(binding(p, e[52].1) is Some) by {
        lemma_binding_none(p, e[52].1);
        assert(p[9].0 == e[52].1);
    }
    assert(binding(p, e[59].1) is Some) by {
        lemma_binding_none(p, e[59].1);
        assert(p[9].0 == e[59].1);
    }
    assert(precedes_at(e[60].1, e[56].1, 7));
}

proof fn lemma_grouped_77_88()
    ensures
        grouped_between(pairs_of(MIME_TYPES@), pairs_of(SUFFIX_OVERRIDES@), by_mime(), 77, 88),
{
    let e = pairs_of(MIME_TYPES@);
    let p = pairs_of(SUFFIX_OVERRIDES@);
    reveal_strlit("audio/mp4");
    reveal_strlit("audio/mpeg");
    reveal_strlit("audio/ogg");
    reveal_strlit("audio/wav");
    reveal_strlit("audio/webm");
    reveal_strlit("audio/x-realaudio");
    reveal_strlit("font/otf");
    reveal_strlit("font/ttf");
    reveal_strlit("font/woff");
    reveal_strlit("font/woff2");
    reveal_strlit("image/avif");
    reveal_with_fuel(grouped_between, 13);
    assert(precedes_at(e[56].1, e[65].1, 8));
    assert(precedes_at(e[65].1, e[76].1, 6));
    assert(binding(p, e[76].1) is Some) by {
        lemma_binding_none(p, e[76].1);
        assert(p[10].0 == e[76].1);
    }
    assert(precedes_at(e[77].1, e[113].1, 6));
    assert(precedes_at(e[113].1, e[115].1, 7));
    assert(precedes_at(e[115].1, e[90].1, 6));
    assert(precedes_at(e[90].1, e[79].1, 0));
    assert(precedes_at(e[79].1, e[109].1, 5));
    assert(precedes_at(e[109].1, e[121].1, 5));
    assert(precedes_at(e[121].1, e[122].1, 9));
    assert(precedes_at(e[122].1, e[11].1, 0));
}

proof fn lemma_grouped_88_99()
    ensures
        grouped_between(pairs_of(MIME_TYPES@), pairs_of(SUFFIX_OVERRIDES@), by_mime(), 88, 99),
{
    let e = pairs_of(MIME_TYPES@);
    let p = pairs_of(SUFFIX_OVERRIDES@);
    reveal_strlit("image/avif");
    reveal_strlit("image/bmp");
    reveal_strlit("image/gif");
    reveal_strlit("image/jpeg");
    reveal_strlit("image/png");
    reveal_strlit("image/svg+xml");
    reveal_strlit("image/tiff");
    reveal_strlit("image/vnd.wap.wbmp");
    reveal_with_fuel(grouped_between, 13);
    assert(precedes_at(e[11].1, e[13].1, 6));
    assert(precedes_at(e[13].1, e[32].1, 6));
    assert(precedes_at(e[32].1, e[47].1, 6));
    assert(binding(p, e[47].1) is Some) by {
        lemma_binding_none(p, e[47].1);
        assert(p[11].0 == e[47].1);
    }
    assert(binding(p, e[48].1) is Some) by {
        lemma_binding_none(p, e[48].1);
        assert(p[11].0 == e[48].1);
    }
    assert(precedes_at(e[49].1, e[85].1, 6));
    assert(precedes_at(e[85].1, e[100].1, 6));
    assert(binding(p, e[100].1) is Some) by {
        lemma_binding_none(p, e[100].1);
        assert(p[12].0 == e[100].1);
    }
    assert(precedes_at(e[101].1, e[105].1, 6));
    assert(binding(p, e[105].1) is Some) by {
        lemma_binding_none(p, e[105].1);
        assert(p[13].0 == e[105].1);
    }
    assert(precedes_at(e[106].1, e[114].1, 6));
}

proof fn lemma_grouped_99_110()
    ensures
        grouped_between(pairs_of(MIME_TYPES@), pairs_of(SUFFIX_OVERRIDES@), by_mime(), 99, 110),
{
    let e = pairs_of(MIME_TYPES@);
    let p = pairs_of(SUFFIX_OVERRIDES@);
    reveal_strlit("image/vnd.wap.wbmp");
    reveal_strlit("image/webp");
    reveal_strlit("image/x-icon");
    reveal_strlit("image/x-jng");
    reveal_strlit("text/calendar");
    reveal_strlit("text/css");
    reveal_strlit("text/csv");
    reveal_strlit("text/html");
    reveal_strlit("text/markdown");
    reveal_strlit("text/mathml");
    reveal_with_fuel(grouped_between, 13);
    assert(precedes_at(e[114].1, e[117].1, 6));
    assert(precedes_at(e[117].1, e[38].1, 6));
    assert(precedes_at(e[38].1, e[45].1, 8));
    assert(precedes_at(e[45].1, e[39].1, 0));
    assert(precedes_at(e[39].1, e[17].1, 6));
    assert(precedes_at(e[17].1, e[18].1, 7));
    assert(precedes_at(e[18].1, e[36].1, 5));
    assert(binding(p, e[36].1) is Some) by {
        lemma_binding_none(p, e[36].1);
        assert(p[14].0 == e[36].1);
    }
    assert(binding(p, e[37].1) is Some) by {
        lemma_binding_none(p, e[37].1);
        assert(p[14].0 == e[37].1);
    }
    assert(precedes_at(e[98].1, e[58].1, 5));
    assert(precedes_at(e[58].1, e[62].1, 7));
}

proof fn lemma_grouped_110_121()
    ensures
        grouped_between(pairs_of(MIME_TYPES@), pairs_of(SUFFIX_OVERRIDES@), by_mime(), 110, 121),
{
    let e = pairs_of(MIME_TYPES@);
    let p = pairs_of(SUFFIX_OVERRIDES@);
    reveal_strlit("text/mathml");
    reveal_strlit("text/plain");
    reveal_strlit("text/vnd.sun.j2me.app-descriptor");
    reveal_strlit("text/vnd.wap.wml");
    reveal_strlit("text/x-component");
    reveal_strlit("video/3gpp");
    reveal_strlit("video/3gpp2");
    reveal_strlit("video/mp2t");
    reveal_strlit("video/mp4");
    reveal_strlit("video/mpeg");
    reveal_with_fuel(grouped_between, 13);
    assert(precedes_at(e[62].1, e[110].1, 5));
    assert(precedes_at(e[110].1, e[42].1, 5));
    assert(precedes_at(e[42].1, e[118].1, 9));
    assert(precedes_at(e[118].1, e[35].1, 5));
    assert(precedes_at(e[35].1, e[2].1, 0));
    assert(binding(p, e[2].1) is Some) by {
        lemma_binding_none(p, e[2].1);
        assert(p[15].0 == e[2].1);
    }
    assert(precedes_at(e[3].1, e[1].1, 10));
    assert(precedes_at(e[1].1, e[108].1, 6));
    assert(precedes_at(e[108].1, e[66].1, 8));
    assert(precedes_at(e[66].1, e[67].1, 8));
    assert(binding(p, e[67].1) is Some) by {
        lemma_binding_none(p, e[67].1);
        assert(p[16].0 == e[67].1);
    }
}

proof fn lemma_grouped_121_131()
    ensures
        grouped_between(pairs_of(MIME_TYPES@), pairs_of(SUFFIX_OVERRIDES@), by_mime(), 121, 131),
{
    let e = pairs_of(MIME_TYPES@);
    let p = pairs_of(SUFFIX_OVERRIDES@);
    reveal_strlit("video/mpeg");
    reveal_strlit("video/ogg");
    reveal_strlit("video/quicktime");
    reveal_strlit("video/webm");
    reveal_strlit("video/x-flv");
    reveal_strlit("video/x-m4v");
    reveal_strlit("video/x-mng");
    reveal_strlit("video/x-ms-asf");
    reveal_strlit("video/x-ms-wmv");
    reveal_strlit("video/x-msvideo");
    reveal_with_fuel(grouped_between, 12);
    assert(precedes_at(e[68].1, e[78].1, 6));
    assert(precedes_at(e[78].1, e[64].1, 6));
    assert(precedes_at(e[64].1, e[116].1, 6));
    assert(precedes_at(e[116].1, e[31].1, 6));
    assert(precedes_at(e[31].1, e[57].1, 8));
    assert(precedes_at(e[57].1, e[63].1, 9));
    assert(precedes_at(e[63].1, e[7].1, 9));
    assert(binding(p, e[7].1) is Some) by {
        lemma_binding_none(p, e[7].1);
        assert(p[17].0 == e[7].1);
    }
    assert(precedes_at(e[8].1, e[120].1, 11));
    assert(precedes_at(e[120].1, e[10].1, 10));
}

proof fn lemma_placed_0_22()
    ensures
        placed_between(by_mime(), place_by_mime(), 0, 22),
{
    reveal_with_fuel(placed_between, 24);
}

proof fn lemma_placed_22_44()
    ensures
        placed_between(by_mime(), place_by_mime(), 22, 44),
{
    reveal_with_fuel(placed_between, 24);
}

proof fn lemma_placed_44_66()
    ensures
        placed_between(by_mime(), place_by_mime(), 44, 66),
{
    reveal_with_fuel(placed_between, 24);
}

proof fn lemma_placed_66_88()
    ensures
        placed_between(by_mime(), place_by_mime(), 66, 88),
{
    reveal_with_fuel(placed_between, 24);
}

proof fn lemma_placed_88_110()
    ensures
        placed_between(by_mime(), place_by_mime(), 88, 110),
{
    reveal_with_fuel(placed_between, 24);
}

proof fn lemma_placed_110_132()
    ensures
        placed_between(by_mime(), place_by_mime(), 110, 132),
{
    reveal_with_fuel(placed_between, 24);
}

/// Every MIME type that two extensions of the table share has a pinned
/// extension: where several extensions could stand for a MIME type, the
/// choice is made by hand and not by the order of the table.
pub proof fn lemma_shared_types_pinned(i: int, j: int)
    requires
        0 <= i < MIME_TYPES@.len(),
        0 <= j < MIME_TYPES@.len(),
        i != j,
        pairs_of(MIME_TYPES@)[i].1 == pairs_of(MIME_TYPES@)[j].1,
    ensures
        binding(pairs_of(SUFFIX_OVERRIDES@), pairs_of(MIME_TYPES@)[i].1) is Some,
{
    let e = pairs_of(MIME_TYPES@);
    let p = pairs_of(SUFFIX_OVERRIDES@);
    lemma_grouped_0_11();
    lemma_grouped_11_22();
    lemma_grouped_22_33();
    lemma_grouped_33_44();
    lemma_grouped_44_55();
    lemma_grouped_55_66();
    lemma_grouped_66_77();
    lemma_grouped_77_88();
    lemma_grouped_88_99();
    lemma_grouped_99_110();
    lemma_grouped_110_121();
    lemma_grouped_121_131();
    lemma_grouped_join(e, p, by_mime(), 0, 11, 22);
    lemma_grouped_join(e, p, by_mime(), 0, 22, 33);
    lemma_grouped_join(e, p, by_mime(), 0, 33, 44);
    lemma_grouped_join(e, p, by_mime(), 0, 44, 55);
    lemma_grouped_join(e, p, by_mime(), 0, 55, 66);
    lemma_grouped_join(e, p, by_mime(), 0, 66, 77);
    lemma_grouped_join(e, p, by_mime(), 0, 77, 88);
    lemma_grouped_join(e, p, by_mime(), 0, 88, 99);
    lemma_grouped_join(e, p, by_mime(), 0, 99, 110);
    lemma_grouped_join(e, p, by_mime(), 0, 110, 121);
    lemma_grouped_join(e, p, by_mime(), 0, 121, 131);
    lemma_placed_0_22();
    lemma_placed_22_44();
    lemma_placed_44_66();
    lemma_placed_66_88();
    lemma_placed_88_110();
    lemma_placed_110_132();
    lemma_placed_join(by_mime(), place_by_mime(), 0, 22, 44);
    lemma_placed_join(by_mime(), place_by_mime(), 0, 44, 66);
    lemma_placed_join(by_mime(), place_by_mime(), 0, 66, 88);
    lemma_placed_join(by_mime(), place_by_mime(), 0, 88, 110);
    lemma_placed_join(by_mime(), place_by_mime(), 0, 110, 132);
    assert(by_mime().len() == 132);
    assert(place_by_mime().len() == 132);
    lemma_shared_value_bound(e, p, by_mime(), place_by_mime(), i, j);
}

} // verus!
