use vstd::prelude::*;

verus! {

/// Rows kept visible above and below the cursor unless configured.
pub const DEFAULT_SCROLL_OFFSET: usize = 6;

/// Largest file, in bytes, that is previewed unless configured.
pub const DEFAULT_MAX_PREVIEW_SIZE: u64 = 2097152;

/// How the entries of a listing are ordered.
#[derive(Clone, Copy, Debug, PartialEq, Eq, Structural)]
pub enum SortType {
    SortNatural,
    SortMtime,
}

/// The sort mode and its modifiers; a listing records the one it was built with.
#[derive(Clone, Copy, Debug, PartialEq, Eq, Structural)]
pub struct SortOption {
    pub show_hidden: bool,
    pub directories_first: bool,
    pub case_sensitive: bool,
    pub reverse: bool,
    pub sort_method: SortType,
}

/// Sort modifiers as read from the configuration file, each one optional.
#[derive(Clone, Debug)]
pub struct SortRawOption {
    pub show_hidden: Option<bool>,
    pub directories_first: Option<bool>,
    pub case_sensitive: Option<bool>,
    pub reverse: Option<bool>,
}

/// The configuration file as read, before defaults are filled in.
#[derive(Clone, Debug)]
pub struct JoshutoRawConfig {
    pub scroll_offset: Option<usize>,
    pub tilde_in_titlebar: Option<bool>,
    pub show_preview: Option<bool>,
    pub max_preview_size: Option<u64>,
    pub sort_method: Option<String>,
    pub sort_option: Option<SortRawOption>,
    pub column_ratio: Option<[usize; 3]>,
}

/// The immutable options record the rest of the application reads.
#[derive(Clone, Copy, Debug)]
pub struct JoshutoConfig {
    pub scroll_offset: usize,
    pub tilde_in_titlebar: bool,
    pub show_preview: bool,
    pub max_preview_size: u64,
    pub sort_option: SortOption,
    pub column_ratio: (usize, usize, usize),
}

/// The sort mode a configured name selects: "mtime", or natural order for any other name.
pub open spec fn sort_type_named(name: Seq<char>) -> SortType {
    if name == "mtime"@ {
        SortType::SortMtime
    } else {
        SortType::SortNatural
    }
}

pub open spec fn bool_or(o: Option<bool>, d: bool) -> bool {
    match o {
        Some(b) => b,
        None => d,
    }
}

/// The sort option that a raw configuration describes, defaults filled in.
pub open spec fn sort_option_of(method: Option<String>, raw: Option<SortRawOption>) -> SortOption {
    let sort_method = match method {
        Some(s) => sort_type_named(s@),
        None => SortType::SortNatural,
    };
    match raw {
        Some(o) => SortOption {
            show_hidden: bool_or(o.show_hidden, false),
            directories_first: bool_or(o.directories_first, true),
            case_sensitive: bool_or(o.case_sensitive, false),
            reverse: bool_or(o.reverse, false),
            sort_method,
        },
        None => SortOption {
            show_hidden: false,
            directories_first: true,
            case_sensitive: false,
            reverse: false,
            sort_method,
        },
    }
}

/// The sort option used when nothing is configured.
pub open spec fn default_sort_option() -> SortOption {
    SortOption {
        show_hidden: false,
        directories_first: true,
        case_sensitive: false,
        reverse: false,
        sort_method: SortType::SortNatural,
    }
}

impl SortType {
    /// Reads a sort mode by name.
    pub fn from_name(name: &String) -> (r: SortType)
        ensures
            r == sort_type_named(name@),
    {
        let mtime: String = "mtime".to_owned();
        if *name == mtime {
            SortType::SortMtime
        } else {
            SortType::SortNatural
        }
    }
}

impl JoshutoRawConfig {
    /// Fills in every option the file left out with its default.
    pub fn flatten(self) -> (r: JoshutoConfig)
        ensures
            r.column_ratio == (match self.column_ratio {
                Some(s) => (s[0], s[1], s[2]),
                None => (1usize, 3usize, 4usize),
            }),
            r.scroll_offset == (match self.scroll_offset {
                Some(n) => n,
                None => DEFAULT_SCROLL_OFFSET,
            }),
            r.tilde_in_titlebar == bool_or(self.tilde_in_titlebar, true),
            r.show_preview == bool_or(self.show_preview, true),
            r.max_preview_size == (match self.max_preview_size {
                Some(n) => n,
                None => DEFAULT_MAX_PREVIEW_SIZE,
            }),
            r.sort_option == sort_option_of(self.sort_method, self.sort_option),
    {
        let column_ratio = match self.column_ratio {
            Some(s) => (s[0], s[1], s[2]),
            None => (1, 3, 4),
        };
        let scroll_offset: usize = match self.scroll_offset {
            Some(n) => n,
            None => DEFAULT_SCROLL_OFFSET,
        };
        let tilde_in_titlebar: bool = match self.tilde_in_titlebar {
            Some(b) => b,
            None => true,
        };
        let show_preview: bool = match self.show_preview {
            Some(b) => b,
            None => true,
        };
        let max_preview_size: u64 = match self.max_preview_size {
            Some(n) => n,
            None => DEFAULT_MAX_PREVIEW_SIZE,
        };
        let sort_method = match &self.sort_method {
            Some(s) => SortType::from_name(s),
            None => SortType::SortNatural,
        };
        let sort_option = match &self.sort_option {
            Some(o) => SortOption {
                show_hidden: match o.show_hidden {
                    Some(b) => b,
                    None => false,
                },
                directories_first: match o.directories_first {
                    Some(b) => b,
                    None => true,
                },
                case_sensitive: match o.case_sensitive {
                    Some(b) => b,
                    None => false,
                },
                reverse: match o.reverse {
                    Some(b) => b,
                    None => false,
                },
                sort_method,
            },
            None => SortOption {
                show_hidden: false,
                directories_first: true,
                case_sensitive: false,
                reverse: false,
                sort_method,
            },
        };
        JoshutoConfig {
            scroll_offset,
            tilde_in_titlebar,
            show_preview,
            max_preview_size,
            sort_option,
            column_ratio,
        }
    }
}

impl JoshutoConfig {
    /// The options a configuration file gives, or the defaults when it could not be read.
    pub fn from_parsed(raw: Option<JoshutoRawConfig>) -> (r: JoshutoConfig)
        ensures
            match raw {
                Some(c) => {
                    &&& r.scroll_offset == (match c.scroll_offset {
                        Some(n) => n,
                        None => DEFAULT_SCROLL_OFFSET,
                    })
                    &&& r.tilde_in_titlebar == bool_or(c.tilde_in_titlebar, true)
                    &&& r.show_preview == bool_or(c.show_preview, true)
                    &&& r.max_preview_size == (match c.max_preview_size {
                        Some(n) => n,
                        None => DEFAULT_MAX_PREVIEW_SIZE,
                    })
                    &&& r.sort_option == sort_option_of(c.sort_method, c.sort_option)
                    &&& r.column_ratio == (match c.column_ratio {
                        Some(s) => (s[0], s[1], s[2]),
                        None => (1usize, 3usize, 4usize),
                    })
                },
                None => {
                    &&& r.scroll_offset == DEFAULT_SCROLL_OFFSET
                    &&& r.tilde_in_titlebar
                    &&& r.show_preview
                    &&& r.max_preview_size == DEFAULT_MAX_PREVIEW_SIZE
                    &&& r.sort_option == default_sort_option()
                    &&& r.column_ratio == (1usize, 3usize, 4usize)
                },
            },
    {
        match raw {
            Some(c) => c.flatten(),
            None => JoshutoConfig::default(),
        }
    }
}

impl Default for JoshutoConfig {
    fn default() -> (r: JoshutoConfig)
        ensures
            r.scroll_offset == DEFAULT_SCROLL_OFFSET,
            r.tilde_in_titlebar,
            r.show_preview,
            r.max_preview_size == DEFAULT_MAX_PREVIEW_SIZE,
            r.sort_option == default_sort_option(),
            r.column_ratio == (1usize, 3usize, 4usize),
    {
        let sort_option = SortOption {
            show_hidden: false,
            directories_first: true,
            case_sensitive: false,
            reverse: false,
            sort_method: SortType::SortNatural,
        };
        JoshutoConfig {
            scroll_offset: DEFAULT_SCROLL_OFFSET,
            tilde_in_titlebar: true,
            show_preview: true,
            max_preview_size: DEFAULT_MAX_PREVIEW_SIZE,
            sort_option,
            column_ratio: (1, 3, 4),
        }
    }
}

} // verus!
