use comtrya_lib::updates::{
    apply_color_choice, compose_update_notice, release_url, update_notice,
};

#[test]
fn release_url_names_the_project_twice_and_the_version_once() {
    assert_eq!(
        "https://github.com/comtrya/comtrya/releases/tag/0.8.1",
        release_url("comtrya", "0.8.1")
    );
    assert_eq!("https://github.com///releases/tag/", release_url("", ""));
}

#[test]
fn notice_is_composed_of_four_lines_after_an_empty_one() {
    let text = compose_update_notice("tool", "1.0.0", "1.2.0", "URL", "CMD");
    assert_eq!(
        "\nA new version of tool is available: v1.0.0 -> 1.2.0\nChangelog: URL\nRun to update: CMD",
        text
    );
    assert_eq!(4, text.lines().count());
}

#[test]
fn compose_takes_styled_parts_as_they_are() {
    let text = compose_update_notice("\x1b[3;36mtool\x1b[0m", "1", "\x1b[32m2\x1b[0m", "", "");
    assert_eq!(
        "\nA new version of \x1b[3;36mtool\x1b[0m is available: v1 -> \x1b[32m2\x1b[0m\nChangelog: \nRun to update: ",
        text
    );
}

#[test]
fn notice_without_colours_is_plain_text() {
    apply_color_choice(true);
    assert_eq!(
        "\nA new version of comtrya is available: v0.8.0 -> 0.8.1\n\
         Changelog: https://github.com/comtrya/comtrya/releases/tag/0.8.1\n\
         Run to update: curl -fsSL https://get.comtrya.dev | sh",
        update_notice("comtrya", "0.8.0", "0.8.1")
    );
}

#[test]
fn notice_with_colours_styles_name_version_address_and_command() {
    colored::control::set_override(true);
    // Colours were not refused, so the override stays as it is.
    apply_color_choice(false);
    assert_eq!(
        "\nA new version of \x1b[3;36mcomtrya\x1b[0m is available: v0.8.0 -> \x1b[32m0.8.1\x1b[0m\n\
         Changelog: \x1b[34mhttps://github.com/comtrya/comtrya/releases/tag/0.8.1\x1b[0m\n\
         Run to update: \x1b[32mcurl -fsSL https://get.comtrya.dev | sh\x1b[0m",
        update_notice("comtrya", "0.8.0", "0.8.1")
    );
}

#[test]
fn refusing_colours_overrides_an_earlier_choice() {
    colored::control::set_override(true);
    apply_color_choice(true);
    let text = update_notice("a", "1", "2");
    assert!(!text.contains('\x1b'));
    assert_eq!(
        "\nA new version of a is available: v1 -> 2\n\
         Changelog: https://github.com/a/a/releases/tag/2\n\
         Run to update: curl -fsSL https://get.comtrya.dev | sh",
        text
    );
}
