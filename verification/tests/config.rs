use vime::config::{
    default_editor, editor_command, find_config_file, find_vim, resolve_editor, split_words,
    vime_config, Config, FALLBACK_SHELL, SCRATCH_FILE, VIM_PATH,
};

fn strings(words: &[&str]) -> Vec<String> {
    words.iter().map(|w| w.to_string()).collect()
}

#[test]
fn default_config_has_the_default_values() {
    let c = Config::default_for(Some("/bin/zsh".to_string()));
    assert_eq!(c.default_columns, 80);
    assert_eq!(c.default_rows, 24);
    assert_eq!(c.trigger_key_state, 0x8);
    assert_eq!(c.trigger_key_keycode, 62);
    assert_eq!(c.shell, strings(&["/bin/zsh"]));
    assert_eq!(c.fonts_regular, strings(&[""]));
    assert_eq!(c.fonts_bold, strings(&[""]));
    assert_eq!(c.fonts_faint, strings(&[""]));
    assert_eq!(c.font_size, 32);
    assert_eq!(c.status_bar_font_size, 32);
    assert_eq!(c.scroll_bar_width, 5);
    assert_eq!(c.scroll_bar_fg_color, 0x606060FF);
    assert_eq!(c.scroll_bar_bg_color, 0x202020FF);
    assert_eq!(c.east_asian_width_ambiguous, 1);
    assert_eq!(c.color_black, 0x000000FF);
    assert_eq!(c.color_red, 0xFF0000FF);
    assert_eq!(c.color_green, 0x00FF00FF);
    assert_eq!(c.color_yellow, 0xFFFF00FF);
    assert_eq!(c.color_blue, 0x0000FFFF);
    assert_eq!(c.color_magenta, 0xFF00FFFF);
    assert_eq!(c.color_cyan, 0x00FFFFFF);
    assert_eq!(c.color_white, 0xFFFFFFFF);
    assert_eq!(c.color_bright_black, 0x505050FF);
    assert_eq!(c.color_bright_red, 0xFF5050FF);
    assert_eq!(c.color_bright_green, 0x50FF50FF);
    assert_eq!(c.color_bright_yellow, 0xFFFF50FF);
    assert_eq!(c.color_bright_blue, 0x5050FFFF);
    assert_eq!(c.color_bright_magenta, 0xFF50FFFF);
    assert_eq!(c.color_bright_cyan, 0x50FFFFFF);
    assert_eq!(c.color_bright_white, 0xFFFFFFFF);
}

#[test]
fn default_config_falls_back_to_sh() {
    assert_eq!(FALLBACK_SHELL, "/bin/sh");
    let c = Config::default_for(None);
    assert_eq!(c.shell, strings(&["/bin/sh"]));
    let with_zsh = Config::default_for(Some("/bin/zsh".to_string()));
    assert_eq!(Config { shell: strings(&["/bin/zsh"]), ..c }, with_zsh);
}

#[test]
fn vim_is_found_under_usr_bin() {
    assert_eq!(find_vim(), "/usr/bin/vim");
    assert_eq!(VIM_PATH, "/usr/bin/vim");
}

#[test]
fn default_editor_uses_the_startup_file_under_home() {
    assert_eq!(default_editor("/home/u"), "/usr/bin/vim -u /home/u/.config/vime/vimrc");
    assert_eq!(default_editor(""), "/usr/bin/vim -u /.config/vime/vimrc");
}

#[test]
fn split_words_splits_at_every_space() {
    assert_eq!(split_words("vim -u rc"), strings(&["vim", "-u", "rc"]));
    assert_eq!(split_words("vim"), strings(&["vim"]));
    assert_eq!(split_words("a\tb c\nd"), strings(&["a\tb", "c\nd"]));
    assert_eq!(split_words("é ü"), strings(&["é", "ü"]));
}

#[test]
fn split_words_keeps_empty_words() {
    assert_eq!(split_words(""), strings(&[""]));
    assert_eq!(split_words(" "), strings(&["", ""]));
    assert_eq!(split_words("a  b"), strings(&["a", "", "b"]));
    assert_eq!(split_words(" a "), strings(&["", "a", ""]));
}

#[test]
fn split_words_agrees_with_split_of_std() {
    for text in ["", " ", "  ", "a", "a b", " a b ", "nvim --clean  -n", "日本 語 "] {
        let expected: Vec<String> = text.split(' ').map(|s| s.to_owned()).collect();
        assert_eq!(split_words(text), expected);
        assert_eq!(split_words(text).join(" "), text);
    }
}

#[test]
fn editor_command_ends_with_the_scratch_file() {
    assert_eq!(SCRATCH_FILE, "/tmp/vime_buffer.txt");
    assert_eq!(
        editor_command("/usr/bin/vim -u /home/u/.config/vime/vimrc"),
        strings(&["/usr/bin/vim", "-u", "/home/u/.config/vime/vimrc", "/tmp/vime_buffer.txt"])
    );
    assert_eq!(editor_command("nano"), strings(&["nano", "/tmp/vime_buffer.txt"]));
    assert_eq!(editor_command(""), strings(&["", "/tmp/vime_buffer.txt"]));
}

#[test]
fn configured_editor_wins_over_the_default() {
    let home = Some("/home/u".to_string());
    assert_eq!(resolve_editor(Some("emacs -nw".to_string()), home), "emacs -nw");
    assert_eq!(resolve_editor(Some("emacs -nw".to_string()), None), "emacs -nw");
    assert_eq!(
        resolve_editor(None, Some("/home/u".to_string())),
        "/usr/bin/vim -u /home/u/.config/vime/vimrc"
    );
}

#[test]
fn vime_config_replaces_the_shell_only() {
    let mut built = Config::default_for(Some("/bin/zsh".to_string()));
    built.default_columns = 120;
    built.font_size = 18;
    built.fonts_regular = strings(&["/fonts/a.ttf", "/fonts/b.ttf"]);
    let config = vime_config(Some("nvim -n".to_string()), None, built.clone());
    assert_eq!(config.shell, strings(&["nvim", "-n", "/tmp/vime_buffer.txt"]));
    assert_eq!(Config { shell: built.shell.clone(), ..config }, built);
}

#[test]
fn vime_config_without_an_editor_runs_vim() {
    let built = Config::default_for(None);
    let config = vime_config(None, Some("/root".to_string()), built);
    assert_eq!(
        config.shell,
        strings(&["/usr/bin/vim", "-u", "/root/.config/vime/vimrc", "/tmp/vime_buffer.txt"])
    );
}

#[test]
fn config_file_is_looked_for_under_the_xdg_directory_first() {
    assert_eq!(
        find_config_file(Some("/xdg".to_string()), Some("/home/u".to_string())),
        Some(strings(&["/xdg", "vime", "config.toml"]))
    );
    assert_eq!(
        find_config_file(Some("/xdg".to_string()), None),
        Some(strings(&["/xdg", "vime", "config.toml"]))
    );
}

#[test]
fn config_file_falls_back_to_dot_config_under_home() {
    assert_eq!(
        find_config_file(None, Some("/home/u".to_string())),
        Some(strings(&["/home/u", ".config", "vime", "config.toml"]))
    );
}

#[test]
fn config_file_is_unknown_without_either_directory() {
    assert_eq!(find_config_file(None, None), None);
}
