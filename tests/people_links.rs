use mediabot::links::{fix_twitter_link, replace_every, strip_query};
use mediabot::people::{
    birthday_entries, birthday_greeting, birthdays_on, user_local_time, zone_of_user, TimeError,
};

fn table(rows: &[&[&str]]) -> Vec<Vec<String>> {
    rows.iter().map(|r| r.iter().map(|c| c.to_string()).collect()).collect()
}

#[test]
fn twitter_links_point_at_mirror() {
    assert_eq!(
        fix_twitter_link("https://x.com/user/status/123?s=20&t=abc"),
        "https://vxtwitter.com/user/status/123"
    );
    assert_eq!(
        fix_twitter_link("https://twitter.com/user/status/9"),
        "https://vxtwitter.com/user/status/9"
    );
    assert_eq!(fix_twitter_link("https://example.com/a?b"), "https://example.com/a");
    assert_eq!(fix_twitter_link("?only"), "");
}

#[test]
fn replace_and_strip() {
    assert_eq!(replace_every("aaa", "aa", "b"), "ba");
    assert_eq!(replace_every("abcabc", "bc", "X"), "aXaX");
    assert_eq!(replace_every("abc", "", "X"), "abc");
    assert_eq!(replace_every("ab", "abc", "X"), "ab");
    assert_eq!(strip_query("no query"), "no query");
    assert_eq!(strip_query("a?b?c"), "a");
}

#[test]
fn zone_lookup_first_row_wins() {
    let rows = table(&[&["1", "Europe/Paris"], &["2"], &["1", "Asia/Tokyo"]]);
    assert_eq!(zone_of_user(&rows, "1").as_deref(), Some("Europe/Paris"));
    assert_eq!(zone_of_user(&rows, "2"), None);
    assert_eq!(zone_of_user(&rows, "3"), None);
}

#[test]
fn local_time_in_zone() {
    let rows = table(&[&["1", "UTC"], &["2", "Europe/Berlin"], &["3", "Mars/Olympus"]]);
    // 2024-01-02 03:04:05 UTC
    let t = 1704164645;
    assert_eq!(user_local_time(&rows, "1", t).unwrap(), "03:04 02/01");
    assert_eq!(user_local_time(&rows, "2", t).unwrap(), "04:04 02/01");
    assert_eq!(
        user_local_time(&rows, "3", t),
        Err(TimeError::UnknownZone("Mars/Olympus".to_string()))
    );
    assert_eq!(user_local_time(&rows, "4", t), Err(TimeError::NotListed));
    assert_eq!(user_local_time(&rows, "1", i64::MAX), Err(TimeError::OutOfRange));
    assert_eq!(TimeError::NotListed.text(), "Timezone not found");
    assert_eq!(TimeError::UnknownZone("X".to_string()).text(), "Invalid timezone: X");
}

#[test]
fn birthdays_today() {
    let rows = table(&[
        &["ann", "1990-05-17"],
        &["bob", "1985-05-17"],
        &["bob", "1985-06-01"],
        &["cid", "not a date"],
        &["dee"],
        &["eve", "2000-05-17"],
        &["ann", "garbage"],
    ]);
    let entries = birthday_entries(&rows);
    assert_eq!(entries.len(), 7);
    assert_eq!(entries[0], ("ann".to_string(), Some((1990, 5, 17))));
    assert_eq!(entries[3].1, None);
    assert_eq!(entries[4].1, None);
    assert_eq!(birthdays_on(&entries, 5, 17), vec!["ann".to_string(), "eve".to_string()]);
    assert_eq!(birthdays_on(&entries, 6, 1), vec!["bob".to_string()]);
    assert!(birthdays_on(&entries, 1, 1).is_empty());
    assert_eq!(birthday_greeting("ann"), "🎉 Happy Birthday, ann! 🎂");
}
