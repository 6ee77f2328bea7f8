//! The shortcode table: each entry pairs a name, written between colons in a
//! message, with the glyph that stands for it.
use vstd::prelude::*;

verus! {

/// Number of entries in the table.
pub const TABLE_LEN: usize = 88;

/// The name of entry `i`; empty outside the table.
pub open spec fn shortcode_at(i: int) -> Seq<char> {
    if i == 0 {
        "heart"@
    } else if i == 1 {
        "smile"@
    } else if i == 2 {
        "smiley"@
    } else if i == 3 {
        "grinning"@
    } else if i == 4 {
        "blush"@
    } else if i == 5 {
        "wink"@
    } else if i == 6 {
        "heart_eyes"@
    } else if i == 7 {
        "kissing_heart"@
    } else if i == 8 {
        "stuck_out_tongue"@
    } else if i == 9 {
        "sunglasses"@
    } else if i == 10 {
        "joy"@
    } else if i == 11 {
        "sob"@
    } else if i == 12 {
        "cry"@
    } else if i == 13 {
        "angry"@
    } else if i == 14 {
        "rage"@
    } else if i == 15 {
        "thinking_face"@
    } else if i == 16 {
        "+1"@
    } else if i == 17 {
        "thumbsup"@
    } else if i == 18 {
        "-1"@
    } else if i == 19 {
        "thumbsdown"@
    } else if i == 20 {
        "ok_hand"@
    } else if i == 21 {
        "clap"@
    } else if i == 22 {
        "wave"@
    } else if i == 23 {
        "pray"@
    } else if i == 24 {
        "muscle"@
    } else if i == 25 {
        "fire"@
    } else if i == 26 {
        "star"@
    } else if i == 27 {
        "sparkles"@
    } else if i == 28 {
        "zap"@
    } else if i == 29 {
        "boom"@
    } else if i == 30 {
        "tada"@
    } else if i == 31 {
        "rocket"@
    } else if i == 32 {
        "warning"@
    } else if i == 33 {
        "x"@
    } else if i == 34 {
        "white_check_mark"@
    } else if i == 35 {
        "heavy_check_mark"@
    } else if i == 36 {
        "question"@
    } else if i == 37 {
        "exclamation"@
    } else if i == 38 {
        "bell"@
    } else if i == 39 {
        "bulb"@
    } else if i == 40 {
        "bug"@
    } else if i == 41 {
        "lock"@
    } else if i == 42 {
        "key"@
    } else if i == 43 {
        "mag"@
    } else if i == 44 {
        "memo"@
    } else if i == 45 {
        "book"@
    } else if i == 46 {
        "calendar"@
    } else if i == 47 {
        "email"@
    } else if i == 48 {
        "phone"@
    } else if i == 49 {
        "computer"@
    } else if i == 50 {
        "package"@
    } else if i == 51 {
        "wrench"@
    } else if i == 52 {
        "hammer"@
    } else if i == 53 {
        "gear"@
    } else if i == 54 {
        "link"@
    } else if i == 55 {
        "eyes"@
    } else if i == 56 {
        "100"@
    } else if i == 57 {
        "poop"@
    } else if i == 58 {
        "skull"@
    } else if i == 59 {
        "ghost"@
    } else if i == 60 {
        "robot_face"@
    } else if i == 61 {
        "dog"@
    } else if i == 62 {
        "cat"@
    } else if i == 63 {
        "coffee"@
    } else if i == 64 {
        "beer"@
    } else if i == 65 {
        "pizza"@
    } else if i == 66 {
        "sunny"@
    } else if i == 67 {
        "cloud"@
    } else if i == 68 {
        "umbrella"@
    } else if i == 69 {
        "snowflake"@
    } else if i == 70 {
        "broken_heart"@
    } else if i == 71 {
        "blue_heart"@
    } else if i == 72 {
        "green_heart"@
    } else if i == 73 {
        "yellow_heart"@
    } else if i == 74 {
        "purple_heart"@
    } else if i == 75 {
        "construction"@
    } else if i == 76 {
        "hourglass"@
    } else if i == 77 {
        "moneybag"@
    } else if i == 78 {
        "chart_with_upwards_trend"@
    } else if i == 79 {
        "checkered_flag"@
    } else if i == 80 {
        "information_source"@
    } else if i == 81 {
        "no_entry"@
    } else if i == 82 {
        "red_circle"@
    } else if i == 83 {
        "large_blue_circle"@
    } else if i == 84 {
        "arrow_up"@
    } else if i == 85 {
        "arrow_down"@
    } else if i == 86 {
        "arrow_left"@
    } else if i == 87 {
        "arrow_right"@
    } else {
        Seq::empty()
    }
}

/// The glyph of entry `i`; empty outside the table.
pub open spec fn glyph_at(i: int) -> Seq<char> {
    if i == 0 {
        "\u{2764}\u{fe0f}"@
    } else if i == 1 {
        "\u{1f604}"@
    } else if i == 2 {
        "\u{1f603}"@
    } else if i == 3 {
        "\u{1f600}"@
    } else if i == 4 {
        "\u{1f60a}"@
    } else if i == 5 {
        "\u{1f609}"@
    } else if i == 6 {
        "\u{1f60d}"@
    } else if i == 7 {
        "\u{1f618}"@
    } else if i == 8 {
        "\u{1f61b}"@
    } else if i == 9 {
        "\u{1f60e}"@
    } else if i == 10 {
        "\u{1f602}"@
    } else if i == 11 {
        "\u{1f62d}"@
    } else if i == 12 {
        "\u{1f622}"@
    } else if i == 13 {
        "\u{1f620}"@
    } else if i == 14 {
        "\u{1f621}"@
    } else if i == 15 {
        "\u{1f914}"@
    } else if i == 16 {
        "\u{1f44d}"@
    } else if i == 17 {
        "\u{1f44d}"@
    } else if i == 18 {
        "\u{1f44e}"@
    } else if i == 19 {
        "\u{1f44e}"@
    } else if i == 20 {
        "\u{1f44c}"@
    } else if i == 21 {
        "\u{1f44f}"@
    } else if i == 22 {
        "\u{1f44b}"@
    } else if i == 23 {
        "\u{1f64f}"@
    } else if i == 24 {
        "\u{1f4aa}"@
    } else if i == 25 {
        "\u{1f525}"@
    } else if i == 26 {
        "\u{2b50}"@
    } else if i == 27 {
        "\u{2728}"@
    } else if i == 28 {
        "\u{26a1}"@
    } else if i == 29 {
        "\u{1f4a5}"@
    } else if i == 30 {
        "\u{1f389}"@
    } else if i == 31 {
        "\u{1f680}"@
    } else if i == 32 {
        "\u{26a0}\u{fe0f}"@
    } else if i == 33 {
        "\u{274c}"@
    } else if i == 34 {
        "\u{2705}"@
    } else if i == 35 {
        "\u{2714}\u{fe0f}"@
    } else if i == 36 {
        "\u{2753}"@
    } else if i == 37 {
        "\u{2757}"@
    } else if i == 38 {
        "\u{1f514}"@
    } else if i == 39 {
        "\u{1f4a1}"@
    } else if i == 40 {
        "\u{1f41b}"@
    } else if i == 41 {
        "\u{1f512}"@
    } else if i == 42 {
        "\u{1f511}"@
    } else if i == 43 {
        "\u{1f50d}"@
    } else if i == 44 {
        "\u{1f4dd}"@
    } else if i == 45 {
        "\u{1f4d6}"@
    } else if i == 46 {
        "\u{1f4c6}"@
    } else if i == 47 {
        "\u{2709}\u{fe0f}"@
    } else if i == 48 {
        "\u{260e}\u{fe0f}"@
    } else if i == 49 {
        "\u{1f4bb}"@
    } else if i == 50 {
        "\u{1f4e6}"@
    } else if i == 51 {
        "\u{1f527}"@
    } else if i == 52 {
        "\u{1f528}"@
    } else if i == 53 {
        "\u{2699}\u{fe0f}"@
    } else if i == 54 {
        "\u{1f517}"@
    } else if i == 55 {
        "\u{1f440}"@
    } else if i == 56 {
        "\u{1f4af}"@
    } else if i == 57 {
        "\u{1f4a9}"@
    } else if i == 58 {
        "\u{1f480}"@
    } else if i == 59 {
        "\u{1f47b}"@
    } else if i == 60 {
        "\u{1f916}"@
    } else if i == 61 {
        "\u{1f436}"@
    } else if i == 62 {
        "\u{1f431}"@
    } else if i == 63 {
        "\u{2615}"@
    } else if i == 64 {
        "\u{1f37a}"@
    } else if i == 65 {
        "\u{1f355}"@
    } else if i == 66 {
        "\u{2600}\u{fe0f}"@
    } else if i == 67 {
        "\u{2601}\u{fe0f}"@
    } else if i == 68 {
        "\u{2614}"@
    } else if i == 69 {
        "\u{2744}\u{fe0f}"@
    } else if i == 70 {
        "\u{1f494}"@
    } else if i == 71 {
        "\u{1f499}"@
    } else if i == 72 {
        "\u{1f49a}"@
    } else if i == 73 {
        "\u{1f49b}"@
    } else if i == 74 {
        "\u{1f49c}"@
    } else if i == 75 {
        "\u{1f6a7}"@
    } else if i == 76 {
        "\u{231b}"@
    } else if i == 77 {
        "\u{1f4b0}"@
    } else if i == 78 {
        "\u{1f4c8}"@
    } else if i == 79 {
        "\u{1f3c1}"@
    } else if i == 80 {
        "\u{2139}\u{fe0f}"@
    } else if i == 81 {
        "\u{26d4}"@
    } else if i == 82 {
        "\u{1f534}"@
    } else if i == 83 {
        "\u{1f535}"@
    } else if i == 84 {
        "\u{2b06}\u{fe0f}"@
    } else if i == 85 {
        "\u{2b07}\u{fe0f}"@
    } else if i == 86 {
        "\u{2b05}\u{fe0f}"@
    } else if i == 87 {
        "\u{27a1}\u{fe0f}"@
    } else {
        Seq::empty()
    }
}

/// The name of entry `i`.
pub fn shortcode(i: usize) -> (r: &'static str)
    requires
        i < TABLE_LEN,
    ensures
        r@ == shortcode_at(i as int),
{
    if i == 0 {
        "heart"
    } else if i == 1 {
        "smile"
    } else if i == 2 {
        "smiley"
    } else if i == 3 {
        "grinning"
    } else if i == 4 {
        "blush"
    } else if i == 5 {
        "wink"
    } else if i == 6 {
        "heart_eyes"
    } else if i == 7 {
        "kissing_heart"
    } else if i == 8 {
        "stuck_out_tongue"
    } else if i == 9 {
        "sunglasses"
    } else if i == 10 {
        "joy"
    } else if i == 11 {
        "sob"
    } else if i == 12 {
        "cry"
    } else if i == 13 {
        "angry"
    } else if i == 14 {
        "rage"
    } else if i == 15 {
        "thinking_face"
    } else if i == 16 {
        "+1"
    } else if i == 17 {
        "thumbsup"
    } else if i == 18 {
        "-1"
    } else if i == 19 {
        "thumbsdown"
    } else if i == 20 {
        "ok_hand"
    } else if i == 21 {
        "clap"
    } else if i == 22 {
        "wave"
    } else if i == 23 {
        "pray"
    } else if i == 24 {
        "muscle"
    } else if i == 25 {
        "fire"
    } else if i == 26 {
        "star"
    } else if i == 27 {
        "sparkles"
    } else if i == 28 {
        "zap"
    } else if i == 29 {
        "boom"
    } else if i == 30 {
        "tada"
    } else if i == 31 {
        "rocket"
    } else if i == 32 {
        "warning"
    } else if i == 33 {
        "x"
    } else if i == 34 {
        "white_check_mark"
    } else if i == 35 {
        "heavy_check_mark"
    } else if i == 36 {
        "question"
    } else if i == 37 {
        "exclamation"
    } else if i == 38 {
        "bell"
    } else if i == 39 {
        "bulb"
    } else if i == 40 {
        "bug"
    } else if i == 41 {
        "lock"
    } else if i == 42 {
        "key"
    } else if i == 43 {
        "mag"
    } else if i == 44 {
        "memo"
    } else if i == 45 {
        "book"
    } else if i == 46 {
        "calendar"
    } else if i == 47 {
        "email"
    } else if i == 48 {
        "phone"
    } else if i == 49 {
        "computer"
    } else if i == 50 {
        "package"
    } else if i == 51 {
        "wrench"
    } else if i == 52 {
        "hammer"
    } else if i == 53 {
        "gear"
    } else if i == 54 {
        "link"
    } else if i == 55 {
        "eyes"
    } else if i == 56 {
        "100"
    } else if i == 57 {
        "poop"
    } else if i == 58 {
        "skull"
    } else if i == 59 {
        "ghost"
    } else if i == 60 {
        "robot_face"
    } else if i == 61 {
        "dog"
    } else if i == 62 {
        "cat"
    } else if i == 63 {
        "coffee"
    } else if i == 64 {
        "beer"
    } else if i == 65 {
        "pizza"
    } else if i == 66 {
        "sunny"
    } else if i == 67 {
        "cloud"
    } else if i == 68 {
        "umbrella"
    } else if i == 69 {
        "snowflake"
    } else if i == 70 {
        "broken_heart"
    } else if i == 71 {
        "blue_heart"
    } else if i == 72 {
        "green_heart"
    } else if i == 73 {
        "yellow_heart"
    } else if i == 74 {
        "purple_heart"
    } else if i == 75 {
        "construction"
    } else if i == 76 {
        "hourglass"
    } else if i == 77 {
        "moneybag"
    } else if i == 78 {
        "chart_with_upwards_trend"
    } else if i == 79 {
        "checkered_flag"
    } else if i == 80 {
        "information_source"
    } else if i == 81 {
        "no_entry"
    } else if i == 82 {
        "red_circle"
    } else if i == 83 {
        "large_blue_circle"
    } else if i == 84 {
        "arrow_up"
    } else if i == 85 {
        "arrow_down"
    } else if i == 86 {
        "arrow_left"
    } else {
        "arrow_right"
    }
}

/// The glyph of entry `i`.
pub fn glyph(i: usize) -> (r: &'static str)
    requires
        i < TABLE_LEN,
    ensures
        r@ == glyph_at(i as int),
{
    if i == 0 {
        "\u{2764}\u{fe0f}"
    } else if i == 1 {
        "\u{1f604}"
    } else if i == 2 {
        "\u{1f603}"
    } else if i == 3 {
        "\u{1f600}"
    } else if i == 4 {
        "\u{1f60a}"
    } else if i == 5 {
        "\u{1f609}"
    } else if i == 6 {
        "\u{1f60d}"
    } else if i == 7 {
        "\u{1f618}"
    } else if i == 8 {
        "\u{1f61b}"
    } else if i == 9 {
        "\u{1f60e}"
    } else if i == 10 {
        "\u{1f602}"
    } else if i == 11 {
        "\u{1f62d}"
    } else if i == 12 {
        "\u{1f622}"
    } else if i == 13 {
        "\u{1f620}"
    } else if i == 14 {
        "\u{1f621}"
    } else if i == 15 {
        "\u{1f914}"
    } else if i == 16 {
        "\u{1f44d}"
    } else if i == 17 {
        "\u{1f44d}"
    } else if i == 18 {
        "\u{1f44e}"
    } else if i == 19 {
        "\u{1f44e}"
    } else if i == 20 {
        "\u{1f44c}"
    } else if i == 21 {
        "\u{1f44f}"
    } else if i == 22 {
        "\u{1f44b}"
    } else if i == 23 {
        "\u{1f64f}"
    } else if i == 24 {
        "\u{1f4aa}"
    } else if i == 25 {
        "\u{1f525}"
    } else if i == 26 {
        "\u{2b50}"
    } else if i == 27 {
        "\u{2728}"
    } else if i == 28 {
        "\u{26a1}"
    } else if i == 29 {
        "\u{1f4a5}"
    } else if i == 30 {
        "\u{1f389}"
    } else if i == 31 {
        "\u{1f680}"
    } else if i == 32 {
        "\u{26a0}\u{fe0f}"
    } else if i == 33 {
        "\u{274c}"
    } else if i == 34 {
        "\u{2705}"
    } else if i == 35 {
        "\u{2714}\u{fe0f}"
    } else if i == 36 {
        "\u{2753}"
    } else if i == 37 {
        "\u{2757}"
    } else if i == 38 {
        "\u{1f514}"
    } else if i == 39 {
        "\u{1f4a1}"
    } else if i == 40 {
        "\u{1f41b}"
    } else if i == 41 {
        "\u{1f512}"
    } else if i == 42 {
        "\u{1f511}"
    } else if i == 43 {
        "\u{1f50d}"
    } else if i == 44 {
        "\u{1f4dd}"
    } else if i == 45 {
        "\u{1f4d6}"
    } else if i == 46 {
        "\u{1f4c6}"
    } else if i == 47 {
        "\u{2709}\u{fe0f}"
    } else if i == 48 {
        "\u{260e}\u{fe0f}"
    } else if i == 49 {
        "\u{1f4bb}"
    } else if i == 50 {
        "\u{1f4e6}"
    } else if i == 51 {
        "\u{1f527}"
    } else if i == 52 {
        "\u{1f528}"
    } else if i == 53 {
        "\u{2699}\u{fe0f}"
    } else if i == 54 {
        "\u{1f517}"
    } else if i == 55 {
        "\u{1f440}"
    } else if i == 56 {
        "\u{1f4af}"
    } else if i == 57 {
        "\u{1f4a9}"
    } else if i == 58 {
        "\u{1f480}"
    } else if i == 59 {
        "\u{1f47b}"
    } else if i == 60 {
        "\u{1f916}"
    } else if i == 61 {
        "\u{1f436}"
    } else if i == 62 {
        "\u{1f431}"
    } else if i == 63 {
        "\u{2615}"
    } else if i == 64 {
        "\u{1f37a}"
    } else if i == 65 {
        "\u{1f355}"
    } else if i == 66 {
        "\u{2600}\u{fe0f}"
    } else if i == 67 {
        "\u{2601}\u{fe0f}"
    } else if i == 68 {
        "\u{2614}"
    } else if i == 69 {
        "\u{2744}\u{fe0f}"
    } else if i == 70 {
        "\u{1f494}"
    } else if i == 71 {
        "\u{1f499}"
    } else if i == 72 {
        "\u{1f49a}"
    } else if i == 73 {
        "\u{1f49b}"
    } else if i == 74 {
        "\u{1f49c}"
    } else if i == 75 {
        "\u{1f6a7}"
    } else if i == 76 {
        "\u{231b}"
    } else if i == 77 {
        "\u{1f4b0}"
    } else if i == 78 {
        "\u{1f4c8}"
    } else if i == 79 {
        "\u{1f3c1}"
    } else if i == 80 {
        "\u{2139}\u{fe0f}"
    } else if i == 81 {
        "\u{26d4}"
    } else if i == 82 {
        "\u{1f534}"
    } else if i == 83 {
        "\u{1f535}"
    } else if i == 84 {
        "\u{2b06}\u{fe0f}"
    } else if i == 85 {
        "\u{2b07}\u{fe0f}"
    } else if i == 86 {
        "\u{2b05}\u{fe0f}"
    } else {
        "\u{27a1}\u{fe0f}"
    }
}

} // verus!
