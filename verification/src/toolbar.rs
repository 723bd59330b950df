//! Toolbar configuration: the ordered items the surrounding interface
//! displays.

use vstd::prelude::*;
use vstd::string::StringExecFns;

use crate::strutil::push_char;
use crate::tools::ToolId;

verus! {

/// A toolbar item: a tool button, an action button, or a separator.
#[derive(Clone, Debug)]
pub struct ToolbarItem {
    /// Item identifier.
    pub id: String,
    /// Display label.
    pub label: String,
    /// Icon glyph.
    pub icon: String,
    /// Keyboard shortcut display.
    pub shortcut: String,
    /// Whether this item is a tool button.
    pub is_tool: bool,
    /// The tool's name, when the item is a tool button.
    pub tool_id: Option<String>,
    /// Whether the item is a separator.
    pub is_separator: bool,
}

/// The icon glyph of each tool.
pub open spec fn spec_tool_icon(tool_id: ToolId) -> char {
    match tool_id {
        ToolId::Rectangle => '▢',
        ToolId::Line => '─',
        ToolId::Arrow => '→',
        ToolId::Diamond => '◇',
        ToolId::Text => 'T',
        ToolId::Freehand => '✎',
        ToolId::Select => '⬚',
        ToolId::Eraser => '⌫',
    }
}

impl ToolbarItem {
    /// Create a tool button: its identifier is the lower-cased tool name,
    /// its label the tool name, its icon and shortcut the tool's own.
    pub fn tool(tool_id: ToolId) -> (r: Self)
        ensures
            r.id@ == crate::editor::lower_seq(tool_id.spec_name()),
            r.label@ == tool_id.spec_name(),
            r.icon@ == seq![spec_tool_icon(tool_id)],
            r.shortcut@ == seq![tool_id.spec_shortcut()],
            r.is_tool,
            match r.tool_id {
                Some(t) => t@ == tool_id.spec_name(),
                None => false,
            },
            !r.is_separator,
    {
        let name = tool_id.name();
        let label = String::new().concat(name);
        let id = lower_of(name);
        let mut icon = String::new();
        push_char(&mut icon, Self::tool_icon(tool_id));
        let mut shortcut = String::new();
        push_char(&mut shortcut, tool_id.shortcut());
        let tool_name = String::new().concat(name);
        proof {
            assert(label@ =~= tool_id.spec_name());
            assert(tool_name@ =~= tool_id.spec_name());
            assert(icon@ =~= seq![spec_tool_icon(tool_id)]);
            assert(shortcut@ =~= seq![tool_id.spec_shortcut()]);
        }
        ToolbarItem {
            id,
            label,
            icon,
            shortcut,
            is_tool: true,
            tool_id: Some(tool_name),
            is_separator: false,
        }
    }

    /// Create an action button.
    pub fn action(id: &str, label: &str, icon: &str, shortcut: &str) -> (r: Self)
        ensures
            r.id@ == id@,
            r.label@ == label@,
            r.icon@ == icon@,
            r.shortcut@ == shortcut@,
            !r.is_tool,
            r.tool_id is None,
            !r.is_separator,
    {
        let r = ToolbarItem {
            id: String::new().concat(id),
            label: String::new().concat(label),
            icon: String::new().concat(icon),
            shortcut: String::new().concat(shortcut),
            is_tool: false,
            tool_id: None,
            is_separator: false,
        };
        proof {
            assert(r.id@ =~= id@);
            assert(r.label@ =~= label@);
            assert(r.icon@ =~= icon@);
            assert(r.shortcut@ =~= shortcut@);
        }
        r
    }

    /// Create a separator.
    pub fn separator() -> (r: Self)
        ensures
            r.id@.len() == 0,
            r.label@.len() == 0,
            !r.is_tool,
            r.tool_id is None,
            r.is_separator,
    {
        ToolbarItem {
            id: String::new(),
            label: String::new(),
            icon: String::new(),
            shortcut: String::new(),
            is_tool: false,
            tool_id: None,
            is_separator: true,
        }
    }

    /// The icon glyph of a tool.
    fn tool_icon(tool_id: ToolId) -> (r: char)
        ensures
            r == spec_tool_icon(tool_id),
    {
        match tool_id {
            ToolId::Rectangle => '▢',
            ToolId::Line => '─',
            ToolId::Arrow => '→',
            ToolId::Diamond => '◇',
            ToolId::Text => 'T',
            ToolId::Freehand => '✎',
            ToolId::Select => '⬚',
            ToolId::Eraser => '⌫',
        }
    }
}

/// Lowercase the ASCII letters of a string slice into a fresh string.
fn lower_of(s: &str) -> (r: String)
    ensures
        r@ == crate::editor::lower_seq(s@),
{
    let n = vstd::string::StrSliceExecFns::unicode_len(s);
    let mut out = String::new();
    let mut i: usize = 0;
    while i < n
        invariant
            i <= n,
            n == s@.len(),
            out@ == crate::editor::lower_seq(s@).take(i as int),
        decreases n - i,
    {
        let c = vstd::string::StrSliceExecFns::get_char(s, i);
        let low = if c >= 'A' && c <= 'Z' {
            ((c as u8) + 0x20) as char
        } else {
            c
        };
        push_char(&mut out, low);
        proof {
            assert(out@ =~= crate::editor::lower_seq(s@).take(i + 1));
        }
        i = i + 1;
    }
    proof {
        assert(crate::editor::lower_seq(s@).take(n as int) =~= crate::editor::lower_seq(s@));
    }
    out
}

/// Toolbar configuration: the items in display order.
#[derive(Clone, Debug)]
pub struct ToolbarConfig {
    /// All toolbar items.
    pub items: Vec<ToolbarItem>,
}

impl ToolbarConfig {
    /// The default toolbar: the eight tools in two groups, then undo/redo,
    /// then copy and clear, with separators between the groups.
    pub fn new() -> (r: Self)
        ensures
            r.items@.len() == 15,
            r.items@[0].is_tool && r.items@[0].label@ == ToolId::Select.spec_name(),
            r.items@[5].is_separator,
            r.items@[9].is_separator,
            r.items@[12].is_separator,
            r.items@[10].id@ == "undo"@,
            r.items@[11].id@ == "redo"@,
            r.items@[13].id@ == "copy"@,
            r.items@[14].id@ == "clear"@,
    {
        let mut items: Vec<ToolbarItem> = Vec::new();
        items.push(ToolbarItem::tool(ToolId::Select));
        items.push(ToolbarItem::tool(ToolId::Rectangle));
        items.push(ToolbarItem::tool(ToolId::Line));
        items.push(ToolbarItem::tool(ToolId::Arrow));
        items.push(ToolbarItem::tool(ToolId::Diamond));
        items.push(ToolbarItem::separator());
        items.push(ToolbarItem::tool(ToolId::Text));
        items.push(ToolbarItem::tool(ToolId::Freehand));
        items.push(ToolbarItem::tool(ToolId::Eraser));
        items.push(ToolbarItem::separator());
        items.push(ToolbarItem::action("undo", "Undo", "↶", "Ctrl+Z"));
        items.push(ToolbarItem::action("redo", "Redo", "↷", "Ctrl+Shift+Z"));
        items.push(ToolbarItem::separator());
        items.push(ToolbarItem::action("copy", "Copy", "⎘", "Ctrl+C"));
        items.push(ToolbarItem::action("clear", "Clear", "⌫", ""));
        ToolbarConfig { items }
    }

    /// Find an item by its identifier: the first with that id, if any.
    pub fn find(&self, id: &str) -> (r: Option<&ToolbarItem>)
        ensures
            match r {
                Some(item) => exists|i: int|
                    0 <= i < self.items@.len() && (#[trigger] self.items@[i]).id@ == id@ && item.id@
                        == id@,
                None => forall|i: int|
                    0 <= i < self.items@.len() ==> (#[trigger] self.items@[i]).id@ != id@,
            },
    {
        let n = self.items.len();
        let mut i: usize = 0;
        while i < n
            invariant
                i <= n,
                n == self.items@.len(),
                forall|j: int| 0 <= j < i ==> (#[trigger] self.items@[j]).id@ != id@,
            decreases n - i,
        {
            if crate::strutil::str_eq(self.items[i].id.as_str(), id) {
                return Some(&self.items[i]);
            }
            i = i + 1;
        }
        None
    }

    /// The tool buttons, in display order.
    pub fn tools(&self) -> (r: Vec<&ToolbarItem>)
        ensures
            forall|i: int| 0 <= i < r@.len() ==> (#[trigger] r@[i]).is_tool,
    {
        let mut out: Vec<&ToolbarItem> = Vec::new();
        let n = self.items.len();
        let mut i: usize = 0;
        while i < n
            invariant
                i <= n,
                n == self.items@.len(),
                forall|j: int| 0 <= j < out@.len() ==> (#[trigger] out@[j]).is_tool,
            decreases n - i,
        {
            if self.items[i].is_tool {
                out.push(&self.items[i]);
            }
            i = i + 1;
        }
        out
    }
}

impl Default for ToolbarConfig {
    /// The default configuration holds the default toolbar.
    fn default() -> (r: Self)
        ensures
            r.items@.len() == 15,
    {
        ToolbarConfig::new()
    }
}

} // verus!
