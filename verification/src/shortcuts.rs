//! Keyboard shortcut definitions and matching.

use vstd::prelude::*;
use vstd::string::StrSliceExecFns;
use vstd::string::StringExecFns;

use crate::strutil::push_char;
use crate::tools::ToolId;

verus! {

/// An ASCII lower-case letter mapped to its upper case; anything else
/// unchanged.
pub open spec fn upper_char(c: char) -> char {
    if 'a' <= c <= 'z' {
        ((c as u8) - 0x20) as char
    } else {
        c
    }
}

/// The string with every ASCII lower-case letter raised to upper case.
pub open spec fn upper_seq(s: Seq<char>) -> Seq<char> {
    Seq::new(s.len(), |i: int| upper_char(s[i]))
}

/// Uppercase the ASCII letters of a string.
fn upper_str(s: &str) -> (r: String)
    ensures
        r@ == upper_seq(s@),
{
    let n = s.unicode_len();
    let mut out = String::new();
    let mut i: usize = 0;
    while i < n
        invariant
            i <= n,
            n == s@.len(),
            out@ == upper_seq(s@).take(i as int),
        decreases n - i,
    {
        let c = s.get_char(i);
        let up = if c >= 'a' && c <= 'z' {
            ((c as u8) - 0x20) as char
        } else {
            c
        };
        push_char(&mut out, up);
        proof {
            assert(out@ =~= upper_seq(s@).take(i + 1));
        }
        i = i + 1;
    }
    proof {
        assert(upper_seq(s@).take(n as int) =~= upper_seq(s@));
    }
    out
}

/// Mathematical model of a shortcut.
pub ghost struct ShortcutModel {
    /// The key, upper-cased.
    pub key: Seq<char>,
    /// Whether Control is required.
    pub ctrl: bool,
    /// Whether Shift is required.
    pub shift: bool,
    /// Whether Alt is required.
    pub alt: bool,
    /// The action identifier.
    pub action: Seq<char>,
    /// The human-readable description.
    pub description: Seq<char>,
}

/// A keyboard shortcut definition. The key is stored upper-cased and
/// matched case-insensitively.
#[derive(Clone, Debug)]
pub struct Shortcut {
    /// Key (stored upper-cased).
    pub key: String,
    /// Whether Ctrl is required.
    pub ctrl: bool,
    /// Whether Shift is required.
    pub shift: bool,
    /// Whether Alt is required.
    pub alt: bool,
    /// Action identifier.
    pub action: String,
    /// Human-readable description.
    pub description: String,
}

impl View for Shortcut {
    type V = ShortcutModel;

    open spec fn view(&self) -> ShortcutModel {
        ShortcutModel {
            key: self.key@,
            ctrl: self.ctrl,
            shift: self.shift,
            alt: self.alt,
            action: self.action@,
            description: self.description@,
        }
    }
}

impl Shortcut {
    /// Create a plain key shortcut.
    pub fn key(key: &str, action: &str, description: &str) -> (r: Self)
        ensures
            r@ == (ShortcutModel {
                key: upper_seq(key@),
                ctrl: false,
                shift: false,
                alt: false,
                action: action@,
                description: description@,
            }),
    {
        Shortcut {
            key: upper_str(key),
            ctrl: false,
            shift: false,
            alt: false,
            action: str_to_string(action),
            description: str_to_string(description),
        }
    }

    /// Create a Ctrl+key shortcut.
    pub fn ctrl(key: &str, action: &str, description: &str) -> (r: Self)
        ensures
            r@ == (ShortcutModel {
                key: upper_seq(key@),
                ctrl: true,
                shift: false,
                alt: false,
                action: action@,
                description: description@,
            }),
    {
        Shortcut {
            key: upper_str(key),
            ctrl: true,
            shift: false,
            alt: false,
            action: str_to_string(action),
            description: str_to_string(description),
        }
    }

    /// Create a Ctrl+Shift+key shortcut.
    pub fn ctrl_shift(key: &str, action: &str, description: &str) -> (r: Self)
        ensures
            r@ == (ShortcutModel {
                key: upper_seq(key@),
                ctrl: true,
                shift: true,
                alt: false,
                action: action@,
                description: description@,
            }),
    {
        Shortcut {
            key: upper_str(key),
            ctrl: true,
            shift: true,
            alt: false,
            action: str_to_string(action),
            description: str_to_string(description),
        }
    }

    /// Whether a key event matches this shortcut: the key compares without
    /// regard to ASCII case, the modifiers exactly.
    pub fn matches(&self, key: &str, ctrl: bool, shift: bool, alt: bool) -> (r: bool)
        ensures
            r == (upper_seq(self.key@) == upper_seq(key@) && self.ctrl == ctrl && self.shift
                == shift && self.alt == alt),
    {
        let own = upper_str(self.key.as_str());
        let incoming = upper_str(key);
        let keys_equal = crate::strutil::str_eq(own.as_str(), incoming.as_str());
        keys_equal && self.ctrl == ctrl && self.shift == shift && self.alt == alt
    }
}

/// A copy of a string slice.
fn str_to_string(s: &str) -> (r: String)
    ensures
        r@ == s@,
{
    let out = String::new();
    let out = out.concat(s);
    proof {
        assert(out@ =~= s@);
    }
    out
}

/// Shortcut manager: the registered shortcuts in registration order.
#[derive(Clone, Debug)]
pub struct ShortcutManager {
    /// All registered shortcuts.
    shortcuts: Vec<Shortcut>,
}

impl ShortcutManager {
    /// The models of the registered shortcuts, in order.
    pub closed spec fn spec_shortcuts(&self) -> Seq<ShortcutModel> {
        Seq::new(self.shortcuts@.len(), |i: int| self.shortcuts@[i]@)
    }

    /// Create a new manager holding the default shortcuts.
    pub fn new() -> (r: Self)
        ensures
            r.spec_shortcuts().len() == 15,
            r.spec_shortcuts() == spec_default_shortcuts(),
    {
        let mut manager = ShortcutManager { shortcuts: Vec::new() };
        manager.register(Shortcut::key("R", "tool_rectangle", "Rectangle tool"));
        manager.register(Shortcut::key("L", "tool_line", "Line tool"));
        manager.register(Shortcut::key("A", "tool_arrow", "Arrow tool"));
        manager.register(Shortcut::key("D", "tool_diamond", "Diamond tool"));
        manager.register(Shortcut::key("T", "tool_text", "Text tool"));
        manager.register(Shortcut::key("F", "tool_freehand", "Freehand tool"));
        manager.register(Shortcut::key("V", "tool_select", "Select tool"));
        manager.register(Shortcut::key("E", "tool_eraser", "Eraser tool"));
        manager.register(Shortcut::ctrl("Z", "undo", "Undo"));
        manager.register(Shortcut::ctrl_shift("Z", "redo", "Redo"));
        manager.register(Shortcut::ctrl("Y", "redo", "Redo (alternative)"));
        manager.register(Shortcut::ctrl("C", "copy", "Copy text"));
        manager.register(Shortcut::ctrl("A", "select_all", "Select all"));
        manager.register(Shortcut::key("Space", "pan_mode", "Pan mode (hold)"));
        manager.register(Shortcut::key("Escape", "cancel", "Cancel/Deselect"));
        proof {
            assert(manager.spec_shortcuts() =~= spec_default_shortcuts());
        }
        manager
    }

    /// Register a new shortcut at the end of the list.
    pub fn register(&mut self, shortcut: Shortcut)
        ensures
            final(self).spec_shortcuts() == old(self).spec_shortcuts().push(shortcut@),
    {
        self.shortcuts.push(shortcut);
        proof {
            assert(self.spec_shortcuts() =~= old(self).spec_shortcuts().push(
                self.shortcuts@.last()@,
            ));
        }
    }

    /// Find the first registered shortcut matching the key event.
    pub fn find_match(&self, key: &str, ctrl: bool, shift: bool, alt: bool) -> (r: Option<
        &Shortcut,
    >)
        ensures
            match r {
                Some(s) => exists|i: int|
                    0 <= i < self.spec_shortcuts().len() && #[trigger] self.spec_shortcuts()[i]
                        == s@ && shortcut_matches(s@, key@, ctrl, shift, alt) && forall|j: int|
                        0 <= j < i ==> !shortcut_matches(
                            #[trigger] self.spec_shortcuts()[j],
                            key@,
                            ctrl,
                            shift,
                            alt,
                        ),
                None => forall|j: int|
                    0 <= j < self.spec_shortcuts().len() ==> !shortcut_matches(
                        #[trigger] self.spec_shortcuts()[j],
                        key@,
                        ctrl,
                        shift,
                        alt,
                    ),
            },
    {
        let n = self.shortcuts.len();
        let mut i: usize = 0;
        while i < n
            invariant
                i <= n,
                n == self.spec_shortcuts().len(),
                forall|j: int|
                    0 <= j < i ==> !shortcut_matches(
                        #[trigger] self.spec_shortcuts()[j],
                        key@,
                        ctrl,
                        shift,
                        alt,
                    ),
            decreases n - i,
        {
            if self.shortcuts[i].matches(key, ctrl, shift, alt) {
                proof {
                    let wi = i as int;
                    assert(self.spec_shortcuts()[wi] == self.shortcuts@[wi]@);
                    assert(shortcut_matches(self.spec_shortcuts()[wi], key@, ctrl, shift, alt));
                }
                return Some(&self.shortcuts[i]);
            }
            i = i + 1;
        }
        None
    }

    /// The shortcut registered last under the given action name, if any
    /// carries it.
    pub fn get_by_action(&self, action: &str) -> (r: Option<&Shortcut>)
        ensures
            match r {
                Some(s) => exists|i: int|
                    0 <= i < self.spec_shortcuts().len() && #[trigger] self.spec_shortcuts()[i]
                        == s@ && s@.action == action@ && forall|j: int|
                        i < j < self.spec_shortcuts().len() ==> (
                        #[trigger] self.spec_shortcuts()[j]).action != action@,
                None => forall|j: int|
                    0 <= j < self.spec_shortcuts().len() ==> (
                    #[trigger] self.spec_shortcuts()[j]).action != action@,
            },
    {
        let n = self.shortcuts.len();
        let mut i: usize = n;
        while i > 0
            invariant
                i <= n,
                n == self.spec_shortcuts().len(),
                forall|j: int|
                    i <= j < n ==> (#[trigger] self.spec_shortcuts()[j]).action != action@,
            decreases i,
        {
            i = i - 1;
            if crate::strutil::str_eq(self.shortcuts[i].action.as_str(), action) {
                proof {
                    let wi = i as int;
                    assert(self.spec_shortcuts()[wi] == self.shortcuts@[wi]@);
                    assert(self.spec_shortcuts()[wi].action == action@);
                }
                return Some(&self.shortcuts[i]);
            }
        }
        None
    }

    /// All registered shortcuts.
    pub fn all(&self) -> (r: &Vec<Shortcut>)
        ensures
            r@.len() == self.spec_shortcuts().len(),
            forall|i: int| 0 <= i < r@.len() ==> (#[trigger] r@[i])@ == self.spec_shortcuts()[i],
    {
        &self.shortcuts
    }

    /// The display string of the last shortcut registered under an action:
    /// the required modifiers joined to the key with plus signs.
    pub fn display_string(&self, action: &str) -> (r: Option<String>)
        ensures
            r is Some <==> exists|i: int|
                0 <= i < self.spec_shortcuts().len() && (
                #[trigger] self.spec_shortcuts()[i]).action == action@,
    {
        match self.get_by_action(action) {
            Some(s) => {
                let mut out = String::new();
                if s.ctrl {
                    out = out.concat("Ctrl+");
                }
                if s.shift {
                    out = out.concat("Shift+");
                }
                if s.alt {
                    out = out.concat("Alt+");
                }
                let out = out.concat(s.key.as_str());
                Some(out)
            },
            None => None,
        }
    }

    /// The action identifier driven by each tool id.
    pub fn action_from_tool_id(tool_id: ToolId) -> (r: &'static str)
        ensures
            r@ == spec_action_of(tool_id),
    {
        match tool_id {
            ToolId::Rectangle => "tool_rectangle",
            ToolId::Line => "tool_line",
            ToolId::Arrow => "tool_arrow",
            ToolId::Diamond => "tool_diamond",
            ToolId::Text => "tool_text",
            ToolId::Freehand => "tool_freehand",
            ToolId::Select => "tool_select",
            ToolId::Eraser => "tool_eraser",
        }
    }
}

impl Default for ShortcutManager {
    /// The default manager holds the default shortcuts.
    fn default() -> (r: Self)
        ensures
            r.spec_shortcuts() == spec_default_shortcuts(),
    {
        ShortcutManager::new()
    }
}

/// Whether a shortcut model matches a key event.
pub open spec fn shortcut_matches(
    s: ShortcutModel,
    key: Seq<char>,
    ctrl: bool,
    shift: bool,
    alt: bool,
) -> bool {
    upper_seq(s.key) == upper_seq(key) && s.ctrl == ctrl && s.shift == shift && s.alt == alt
}

/// The action identifier of each tool.
pub open spec fn spec_action_of(tool_id: ToolId) -> Seq<char> {
    match tool_id {
        ToolId::Rectangle => "tool_rectangle"@,
        ToolId::Line => "tool_line"@,
        ToolId::Arrow => "tool_arrow"@,
        ToolId::Diamond => "tool_diamond"@,
        ToolId::Text => "tool_text"@,
        ToolId::Freehand => "tool_freehand"@,
        ToolId::Select => "tool_select"@,
        ToolId::Eraser => "tool_eraser"@,
    }
}

/// The default shortcut table: the eight tool keys, the edit combinations,
/// and the navigation keys, in registration order.
pub open spec fn spec_default_shortcuts() -> Seq<ShortcutModel> {
    seq![
        ShortcutModel {
            key: upper_seq("R"@),
            ctrl: false,
            shift: false,
            alt: false,
            action: "tool_rectangle"@,
            description: "Rectangle tool"@,
        },
        ShortcutModel {
            key: upper_seq("L"@),
            ctrl: false,
            shift: false,
            alt: false,
            action: "tool_line"@,
            description: "Line tool"@,
        },
        ShortcutModel {
            key: upper_seq("A"@),
            ctrl: false,
            shift: false,
            alt: false,
            action: "tool_arrow"@,
            description: "Arrow tool"@,
        },
        ShortcutModel {
            key: upper_seq("D"@),
            ctrl: false,
            shift: false,
            alt: false,
            action: "tool_diamond"@,
            description: "Diamond tool"@,
        },
        ShortcutModel {
            key: upper_seq("T"@),
            ctrl: false,
            shift: false,
            alt: false,
            action: "tool_text"@,
            description: "Text tool"@,
        },
        ShortcutModel {
            key: upper_seq("F"@),
            ctrl: false,
            shift: false,
            alt: false,
            action: "tool_freehand"@,
            description: "Freehand tool"@,
        },
        ShortcutModel {
            key: upper_seq("V"@),
            ctrl: false,
            shift: false,
            alt: false,
            action: "tool_select"@,
            description: "Select tool"@,
        },
        ShortcutModel {
            key: upper_seq("E"@),
            ctrl: false,
            shift: false,
            alt: false,
            action: "tool_eraser"@,
            description: "Eraser tool"@,
        },
        ShortcutModel {
            key: upper_seq("Z"@),
            ctrl: true,
            shift: false,
            alt: false,
            action: "undo"@,
            description: "Undo"@,
        },
        ShortcutModel {
            key: upper_seq("Z"@),
            ctrl: true,
            shift: true,
            alt: false,
            action: "redo"@,
            description: "Redo"@,
        },
        ShortcutModel {
            key: upper_seq("Y"@),
            ctrl: true,
            shift: false,
            alt: false,
            action: "redo"@,
            description: "Redo (alternative)"@,
        },
        ShortcutModel {
            key: upper_seq("C"@),
            ctrl: true,
            shift: false,
            alt: false,
            action: "copy"@,
            description: "Copy text"@,
        },
        ShortcutModel {
            key: upper_seq("A"@),
            ctrl: true,
            shift: false,
            alt: false,
            action: "select_all"@,
            description: "Select all"@,
        },
        ShortcutModel {
            key: upper_seq("Space"@),
            ctrl: false,
            shift: false,
            alt: false,
            action: "pan_mode"@,
            description: "Pan mode (hold)"@,
        },
        ShortcutModel {
            key: upper_seq("Escape"@),
            ctrl: false,
            shift: false,
            alt: false,
            action: "cancel"@,
            description: "Cancel/Deselect"@,
        },
    ]
}

} // verus!
