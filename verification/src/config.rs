//! The configuration, its default values, and the command line of the
//! editor.

use vstd::prelude::*;
use vstd::string::StrSliceExecFns;
use vstd::string::StringExecFns;

verus! {

/// The separator of the words of an editor command line.
pub const WORD_SEPARATOR: char = ' ';

/// The parts joined into one sequence, with `sep` between each two.
pub open spec fn join(parts: Seq<Seq<char>>, sep: char) -> Seq<char>
    decreases parts.len(),
{
    if parts.len() == 0 {
        seq![]
    } else if parts.len() == 1 {
        parts[0]
    } else {
        join(parts.drop_last(), sep) + seq![sep] + parts.last()
    }
}

/// Whether `parts` is `text` split at every `sep`: no part holds `sep`, there
/// is at least one part, and the parts joined by `sep` give `text` back.
/// Parts may be empty: two separators in a row have an empty part between
/// them.
pub open spec fn is_split(parts: Seq<Seq<char>>, text: Seq<char>, sep: char) -> bool {
    &&& parts.len() >= 1
    &&& forall|i: int| 0 <= i < parts.len() ==> !(#[trigger] parts[i]).contains(sep)
    &&& join(parts, sep) == text
}

/// A text has one split only.
pub proof fn lemma_split_unique(a: Seq<Seq<char>>, b: Seq<Seq<char>>, text: Seq<char>, sep: char)
    requires
        is_split(a, text, sep),
        is_split(b, text, sep),
    ensures
        a == b,
    decreases a.len(),
{
    if a.len() == 1 || b.len() == 1 {
        // The text is one part and holds no separator, so the other split
        // has no second part: that would put a separator into the text.
        let other = if a.len() == 1 {
            b
        } else {
            a
        };
        if other.len() >= 2 {
            let front = join(other.drop_last(), sep);
            assert(text[front.len() as int] == sep);
        }
    } else {
        // The text ends in a separator and the last part, in both splits.
        let fa = join(a.drop_last(), sep);
        let fb = join(b.drop_last(), sep);
        let la = a.last();
        let lb = b.last();
        assert(text.len() == fa.len() + 1 + la.len());
        assert(text.len() == fb.len() + 1 + lb.len());
        // The last parts are equally long: else the separator in front of
        // the shorter one would lie inside the longer one.
        if la.len() < lb.len() {
            let p = fa.len() as int;
            assert(text[p] == lb[p - fb.len() - 1]);
        } else if lb.len() < la.len() {
            let p = fb.len() as int;
            assert(text[p] == la[p - fa.len() - 1]);
        }
        assert(la =~= lb) by {
            assert forall|k: int| 0 <= k < la.len() implies la[k] == lb[k] by {
                assert(text[fa.len() + 1 + k] == la[k]);
                assert(text[fb.len() + 1 + k] == lb[k]);
            }
        }
        assert(fa =~= fb) by {
            assert forall|k: int| 0 <= k < fa.len() implies fa[k] == fb[k] by {
                assert(text[k] == fa[k]);
                assert(text[k] == fb[k]);
            }
        }
        lemma_split_unique(a.drop_last(), b.drop_last(), fa, sep);
        assert(a =~= a.drop_last().push(la));
        assert(b =~= b.drop_last().push(lb));
    }
}

/// Splits `text` at every space.
pub fn split_words(text: &str) -> (words: Vec<String>)
    ensures
        is_split(words.deep_view(), text@, WORD_SEPARATOR),
{
    let mut words: Vec<String> = Vec::new();
    let n = text.unicode_len();
    let mut start: usize = 0;
    let mut i: usize = 0;
    for c in it: text.chars()
        invariant
            n == text@.len(),
            it.seq() == text@,
            i == it.index(),
            start <= i <= n,
            forall|j: int|
                0 <= j < words.len() ==> !(#[trigger] words.deep_view()[j]).contains(
                    WORD_SEPARATOR,
                ),
            !text@.subrange(start as int, i as int).contains(WORD_SEPARATOR),
            join(
                words.deep_view().push(text@.subrange(start as int, i as int)),
                WORD_SEPARATOR,
            ) == text@.take(i as int),
    {
        let ghost done = words.deep_view();
        let ghost word = text@.subrange(start as int, i as int);
        if c == WORD_SEPARATOR {
            words.push(String::from_str(text.substring_char(start, i)));
            start = i + 1;
            proof {
                // The word is complete, and the next one starts out empty.
                let empty = text@.subrange(start as int, start as int);
                assert(words.deep_view() =~= done.push(word));
                assert(words.deep_view().push(empty).drop_last() =~= words.deep_view());
            }
        } else {
            proof {
                // The word grows by `c`.
                let longer = text@.subrange(start as int, i + 1);
                assert(done.push(longer).drop_last() =~= done);
                assert(done.push(word).drop_last() =~= done);
            }
        }
        i += 1;
    }
    let ghost done = words.deep_view();
    words.push(String::from_str(text.substring_char(start, n)));
    proof {
        assert(words.deep_view() =~= done.push(text@.subrange(start as int, n as int)));
        assert(text@.take(n as int) =~= text@);
    }
    words
}

/// The file through which the editor hands its text over.
pub const SCRATCH_FILE: &'static str = "/tmp/vime_buffer.txt";

/// The editor that is used where none is configured.
pub const VIM_PATH: &'static str = "/usr/bin/vim";

/// The shell that is used where the environment names none.
pub const FALLBACK_SHELL: &'static str = "/bin/sh";

/// The configuration.
#[derive(Debug, PartialEq, Eq)]
pub struct Config {
    /// The size of the editor popup, in character cells.
    pub default_columns: usize,
    pub default_rows: usize,
    /// The modifiers of the trigger chord, one bit each.
    pub trigger_key_state: u32,
    /// The keycode of the trigger chord.
    pub trigger_key_keycode: u8,
    /// The command line that the terminal runs.
    pub shell: Vec<String>,
    /// Paths to the font files.
    pub fonts_regular: Vec<String>,
    pub fonts_bold: Vec<String>,
    pub fonts_faint: Vec<String>,
    pub font_size: u32,
    pub status_bar_font_size: u32,
    // Colours are written RRGGBBAA.
    pub color_black: u32,
    pub color_red: u32,
    pub color_green: u32,
    pub color_yellow: u32,
    pub color_blue: u32,
    pub color_magenta: u32,
    pub color_cyan: u32,
    pub color_white: u32,
    pub color_bright_black: u32,
    pub color_bright_red: u32,
    pub color_bright_green: u32,
    pub color_bright_yellow: u32,
    pub color_bright_blue: u32,
    pub color_bright_magenta: u32,
    pub color_bright_cyan: u32,
    pub color_bright_white: u32,
    pub scroll_bar_width: u32,
    pub scroll_bar_fg_color: u32,
    pub scroll_bar_bg_color: u32,
    pub east_asian_width_ambiguous: u8,
}

/// A [`Config`] with its texts as sequences of characters.
pub struct ConfigView {
    pub default_columns: usize,
    pub default_rows: usize,
    pub trigger_key_state: u32,
    pub trigger_key_keycode: u8,
    pub shell: Seq<Seq<char>>,
    pub fonts_regular: Seq<Seq<char>>,
    pub fonts_bold: Seq<Seq<char>>,
    pub fonts_faint: Seq<Seq<char>>,
    pub font_size: u32,
    pub status_bar_font_size: u32,
    pub color_black: u32,
    pub color_red: u32,
    pub color_green: u32,
    pub color_yellow: u32,
    pub color_blue: u32,
    pub color_magenta: u32,
    pub color_cyan: u32,
    pub color_white: u32,
    pub color_bright_black: u32,
    pub color_bright_red: u32,
    pub color_bright_green: u32,
    pub color_bright_yellow: u32,
    pub color_bright_blue: u32,
    pub color_bright_magenta: u32,
    pub color_bright_cyan: u32,
    pub color_bright_white: u32,
    pub scroll_bar_width: u32,
    pub scroll_bar_fg_color: u32,
    pub scroll_bar_bg_color: u32,
    pub east_asian_width_ambiguous: u8,
}

impl View for Config {
    type V = ConfigView;

    open spec fn view(&self) -> ConfigView {
        ConfigView {
            default_columns: self.default_columns,
            default_rows: self.default_rows,
            trigger_key_state: self.trigger_key_state,
            trigger_key_keycode: self.trigger_key_keycode,
            shell: self.shell.deep_view(),
            fonts_regular: self.fonts_regular.deep_view(),
            fonts_bold: self.fonts_bold.deep_view(),
            fonts_faint: self.fonts_faint.deep_view(),
            font_size: self.font_size,
            status_bar_font_size: self.status_bar_font_size,
            color_black: self.color_black,
            color_red: self.color_red,
            color_green: self.color_green,
            color_yellow: self.color_yellow,
            color_blue: self.color_blue,
            color_magenta: self.color_magenta,
            color_cyan: self.color_cyan,
            color_white: self.color_white,
            color_bright_black: self.color_bright_black,
            color_bright_red: self.color_bright_red,
            color_bright_green: self.color_bright_green,
            color_bright_yellow: self.color_bright_yellow,
            color_bright_blue: self.color_bright_blue,
            color_bright_magenta: self.color_bright_magenta,
            color_bright_cyan: self.color_bright_cyan,
            color_bright_white: self.color_bright_white,
            scroll_bar_width: self.scroll_bar_width,
            scroll_bar_fg_color: self.scroll_bar_fg_color,
            scroll_bar_bg_color: self.scroll_bar_bg_color,
            east_asian_width_ambiguous: self.east_asian_width_ambiguous,
        }
    }
}

/// A copy of a list of texts.
fn clone_texts(texts: &Vec<String>) -> (copy: Vec<String>)
    ensures
        copy.deep_view() == texts.deep_view(),
{
    let mut copy = Vec::new();
    let mut i: usize = 0;
    while i < texts.len()
        invariant
            i <= texts.len(),
            copy.deep_view() == texts.deep_view().take(i as int),
        decreases texts.len() - i,
    {
        let ghost before = copy.deep_view();
        copy.push(texts[i].clone());
        assert(copy.deep_view() =~= before.push(texts[i as int]@));
        i += 1;
    }
    assert(texts.deep_view().take(texts.len() as int) =~= texts.deep_view());
    copy
}

impl Clone for Config {
    fn clone(&self) -> (copy: Self)
        ensures
            copy@ == self@,
    {
        Config {
            default_columns: self.default_columns,
            default_rows: self.default_rows,
            trigger_key_state: self.trigger_key_state,
            trigger_key_keycode: self.trigger_key_keycode,
            shell: clone_texts(&self.shell),
            fonts_regular: clone_texts(&self.fonts_regular),
            fonts_bold: clone_texts(&self.fonts_bold),
            fonts_faint: clone_texts(&self.fonts_faint),
            font_size: self.font_size,
            status_bar_font_size: self.status_bar_font_size,
            color_black: self.color_black,
            color_red: self.color_red,
            color_green: self.color_green,
            color_yellow: self.color_yellow,
            color_blue: self.color_blue,
            color_magenta: self.color_magenta,
            color_cyan: self.color_cyan,
            color_white: self.color_white,
            color_bright_black: self.color_bright_black,
            color_bright_red: self.color_bright_red,
            color_bright_green: self.color_bright_green,
            color_bright_yellow: self.color_bright_yellow,
            color_bright_blue: self.color_bright_blue,
            color_bright_magenta: self.color_bright_magenta,
            color_bright_cyan: self.color_bright_cyan,
            color_bright_white: self.color_bright_white,
            scroll_bar_width: self.scroll_bar_width,
            scroll_bar_fg_color: self.scroll_bar_fg_color,
            scroll_bar_bg_color: self.scroll_bar_bg_color,
            east_asian_width_ambiguous: self.east_asian_width_ambiguous,
        }
    }
}

/// The default configuration for a shell: a popup of 80 by 24 cells, Alt
/// with the right Shift key as the trigger chord, one empty path for each
/// font list, and the default sizes and colours.
pub open spec fn default_config(shell: Seq<char>) -> ConfigView {
    ConfigView {
        default_columns: 80,
        default_rows: 24,
        trigger_key_state: 0x8,
        trigger_key_keycode: 62,
        shell: seq![shell],
        fonts_regular: seq![Seq::<char>::empty()],
        fonts_bold: seq![Seq::<char>::empty()],
        fonts_faint: seq![Seq::<char>::empty()],
        font_size: 32,
        status_bar_font_size: 32,
        color_black: 0x000000FF,
        color_red: 0xFF0000FF,
        color_green: 0x00FF00FF,
        color_yellow: 0xFFFF00FF,
        color_blue: 0x0000FFFF,
        color_magenta: 0xFF00FFFF,
        color_cyan: 0x00FFFFFF,
        color_white: 0xFFFFFFFF,
        color_bright_black: 0x505050FF,
        color_bright_red: 0xFF5050FF,
        color_bright_green: 0x50FF50FF,
        color_bright_yellow: 0xFFFF50FF,
        color_bright_blue: 0x5050FFFF,
        color_bright_magenta: 0xFF50FFFF,
        color_bright_cyan: 0x50FFFFFF,
        color_bright_white: 0xFFFFFFFF,
        scroll_bar_width: 5,
        scroll_bar_fg_color: 0x606060FF,
        scroll_bar_bg_color: 0x202020FF,
        east_asian_width_ambiguous: 1,
    }
}

/// The shell to run: the one that the environment names, else the fallback.
pub open spec fn shell_or_fallback(shell: Option<String>) -> Seq<char> {
    match shell {
        Some(path) => path@,
        None => FALLBACK_SHELL@,
    }
}

/// A list that holds one empty path.
fn one_empty_path() -> (paths: Vec<String>)
    ensures
        paths.deep_view() == seq![Seq::<char>::empty()],
{
    let mut paths = Vec::new();
    paths.push(String::new());
    paths
}

impl Config {
    /// The default configuration. `shell` is what the environment names as
    /// the user's shell, if it names one.
    pub fn default_for(shell: Option<String>) -> (config: Config)
        ensures
            config@ == default_config(shell_or_fallback(shell)),
    {
        let ghost shell_text = shell_or_fallback(shell);
        let shell_path = match shell {
            Some(path) => path,
            None => String::from_str(FALLBACK_SHELL),
        };
        let mut command = Vec::new();
        command.push(shell_path);
        assert(command.deep_view() =~= seq![shell_text]);
        Config {
            default_columns: 80,
            default_rows: 24,
            trigger_key_state: 0x8,
            trigger_key_keycode: 62,
            shell: command,
            east_asian_width_ambiguous: 1,
            fonts_regular: one_empty_path(),
            fonts_bold: one_empty_path(),
            fonts_faint: one_empty_path(),
            font_size: 32,
            status_bar_font_size: 32,
            scroll_bar_width: 5,
            scroll_bar_fg_color: 0x606060FF,
            scroll_bar_bg_color: 0x202020FF,
            color_black: 0x000000FF,
            color_red: 0xFF0000FF,
            color_green: 0x00FF00FF,
            color_yellow: 0xFFFF00FF,
            color_blue: 0x0000FFFF,
            color_magenta: 0xFF00FFFF,
            color_cyan: 0x00FFFFFF,
            color_white: 0xFFFFFFFF,
            color_bright_black: 0x505050FF,
            color_bright_red: 0xFF5050FF,
            color_bright_green: 0x50FF50FF,
            color_bright_yellow: 0xFFFF50FF,
            color_bright_blue: 0x5050FFFF,
            color_bright_magenta: 0xFF50FFFF,
            color_bright_cyan: 0x50FFFFFF,
            color_bright_white: 0xFFFFFFFF,
        }
    }
}

/// Where the editor is found.
pub fn find_vim() -> (path: String)
    ensures
        path@ == VIM_PATH@,
{
    String::from_str(VIM_PATH)
}

/// The editor command line that is used where none is configured: vim with
/// the user's own startup file under `home`.
pub open spec fn default_editor_line(home: Seq<char>) -> Seq<char> {
    VIM_PATH@ + " -u "@ + home + "/.config/vime/vimrc"@
}

/// Builds the editor command line that is used where none is configured.
pub fn default_editor(home: &str) -> (line: String)
    ensures
        line@ == default_editor_line(home@),
{
    let mut line = find_vim();
    line.append(" -u ");
    line.append(home);
    line.append("/.config/vime/vimrc");
    line
}

/// Whether `command` is the command that runs the editor line: the words of
/// the line, split at every space, and then the scratch file.
pub open spec fn is_editor_command(command: Seq<Seq<char>>, line: Seq<char>) -> bool {
    &&& command.len() >= 2
    &&& is_split(command.drop_last(), line, WORD_SEPARATOR)
    &&& command.last() == SCRATCH_FILE@
}

/// Turns an editor command line into the command to run: its words, and the
/// scratch file as the last argument.
pub fn editor_command(line: &str) -> (command: Vec<String>)
    ensures
        is_editor_command(command.deep_view(), line@),
{
    let mut command = split_words(line);
    let ghost words = command.deep_view();
    command.push(String::from_str(SCRATCH_FILE));
    assert(command.deep_view().drop_last() =~= words);
    command
}

/// The editor command line in force: the configured one, else the default
/// one for the user's home directory.
pub open spec fn editor_line(vime_editor: Option<String>, home: Option<String>) -> Seq<char> {
    match vime_editor {
        Some(line) => line@,
        None => default_editor_line(home.unwrap()@),
    }
}

/// Picks the editor command line: the configured one, else the default one
/// for the user's home directory.
pub fn resolve_editor(vime_editor: Option<String>, home: Option<String>) -> (line: String)
    requires
        vime_editor is None ==> home is Some,
    ensures
        line@ == editor_line(vime_editor, home),
{
    match vime_editor {
        Some(line) => line,
        None => default_editor(home.unwrap().as_str()),
    }
}

/// Completes a configuration that was built from the defaults and the
/// user's file: the terminal is made to run the editor on the scratch file,
/// and nothing else changes.
///
/// `vime_editor` is the editor command line that the environment configures,
/// if any; `home` the user's home directory, which must be known where no
/// editor is configured.
pub fn vime_config(vime_editor: Option<String>, home: Option<String>, built: Config) -> (config:
    Config)
    requires
        vime_editor is None ==> home is Some,
    ensures
        is_editor_command(config@.shell, editor_line(vime_editor, home)),
        config@ == (ConfigView { shell: config@.shell, ..built@ }),
{
    let line = resolve_editor(vime_editor, home);
    let mut config = built;
    config.shell = editor_command(line.as_str());
    config
}

/// The path of the user's configuration file, as the components that make
/// it up from its root on: under the configuration directory that the
/// environment names, or else under `.config` in the home directory.
pub open spec fn config_file_path(xdg_config_home: Option<String>, home: Option<String>) -> Option<
    Seq<Seq<char>>,
> {
    match (xdg_config_home, home) {
        (Some(dir), _) => Some(seq![dir@, "vime"@, "config.toml"@]),
        (None, Some(dir)) => Some(seq![dir@, ".config"@, "vime"@, "config.toml"@]),
        (None, None) => None,
    }
}

/// Finds the user's configuration file, from the configuration directory
/// and the home directory that the environment names. There is none where
/// the environment names neither.
pub fn find_config_file(xdg_config_home: Option<String>, home: Option<String>) -> (path: Option<
    Vec<String>,
>)
    ensures
        path is Some <==> config_file_path(xdg_config_home, home) is Some,
        path matches Some(components) ==> Some(components.deep_view()) == config_file_path(
            xdg_config_home,
            home,
        ),
{
    let ghost expected = config_file_path(xdg_config_home, home);
    let mut components = Vec::new();
    match xdg_config_home {
        Some(dir) => {
            components.push(dir);
        },
        None => match home {
            Some(dir) => {
                components.push(dir);
                components.push(String::from_str(".config"));
            },
            None => {
                return None;
            },
        },
    }
    components.push(String::from_str("vime"));
    components.push(String::from_str("config.toml"));
    Some(components)
}

} // verus!
