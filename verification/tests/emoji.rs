use webhook_bridge::emoji::{lookup, replace_emoji};

#[test]
fn emoji_test_basic() {
    assert_eq!(replace_emoji(":"), ":");
    assert_eq!(replace_emoji(":heart:"), "❤️");
    assert_eq!(replace_emoji("::heart:heart:"), ":❤️heart:");
    assert_eq!(replace_emoji(":heart:heart:"), "❤️heart:");
    assert_eq!(replace_emoji(":heart:::::heart:"), "❤️:::❤️");
    assert_eq!(replace_emoji(":sdfsdfsdfs::heart:"), ":sdfsdfsdfs:❤️");
}

#[test]
fn text_without_colon_is_unchanged() {
    for s in ["", "heart", "hello world", "❤️ and more", "a b\nc"] {
        let once = replace_emoji(s);
        assert_eq!(once, s);
        assert_eq!(replace_emoji(&once), once);
    }
}

#[test]
fn first_and_last_token_are_kept() {
    assert_eq!(replace_emoji("heart:"), "heart:");
    assert_eq!(replace_emoji(":heart"), ":heart");
    assert_eq!(replace_emoji("heart:heart"), "heart:heart");
    assert_eq!(replace_emoji("a:heart:b"), "a❤️b");
    assert_eq!(replace_emoji("heart:heart:heart"), "heart❤️heart");
}

#[test]
fn empty_tokens_are_kept() {
    assert_eq!(replace_emoji("::"), "::");
    assert_eq!(replace_emoji(":::"), ":::");
    assert_eq!(replace_emoji(""), "");
}

#[test]
fn unknown_names_keep_their_colons() {
    assert_eq!(replace_emoji(":no_such_name:"), ":no_such_name:");
    assert_eq!(replace_emoji("x :no_such_name: y :tada: z"), "x :no_such_name: y 🎉 z");
    assert_eq!(replace_emoji(":Heart:"), ":Heart:");
}

#[test]
fn several_names_in_one_text() {
    assert_eq!(replace_emoji(":+1: :rocket:"), "👍 🚀");
    assert_eq!(replace_emoji(":fire::fire:"), "🔥🔥");
    assert_eq!(replace_emoji("done :white_check_mark:"), "done ✅");
}

#[test]
fn lookup_reads_the_given_range() {
    let chars: Vec<char> = "xxheartyy".chars().collect();
    assert_eq!(lookup(&chars, 2, 7), Some("❤️"));
    assert_eq!(lookup(&chars, 2, 6), None);
    assert_eq!(lookup(&chars, 0, 0), None);
}
