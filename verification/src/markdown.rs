//! Markdown elements, written out as text.
use vstd::prelude::*;

use crate::text::{repeat_seq, repeat_str};

verus! {

/// Different elements of Markdown.
///
/// `BlockText` is a paragraph, `Break` an empty line between lists, `Heading` a heading with
/// `depth` leading `#`s, and the two lists are list items indented by `depth` tabs.
#[derive(Clone, Debug)]
pub enum Element {
    /// A text block.
    BlockText(String),
    /// A space between two elements, typically between list items.
    Break,
    /// A heading. `depth` is how many preceding `#`s there are (at least one).
    Heading { depth: usize, text: String },
    /// A numbered list item. `depth` is how many preceding `\t` to use.
    OrderedList { depth: usize, text: String },
    /// An unnumbered list item. `depth` is how many preceding `\t` to use.
    UnorderedList { depth: usize, text: String },
}

/// Inline markdown formatting of some text.
#[derive(Clone, Debug)]
pub enum Text {
    /// Text in bold face.
    Bold(String),
}

/// A paragraph: the text, then a line break.
pub open spec fn block_text(text: Seq<char>) -> Seq<char> {
    text + seq!['\n']
}

/// A heading: `depth` `#`s (at least one), a space, the text, a line break.
pub open spec fn heading_text(depth: usize, text: Seq<char>) -> Seq<char> {
    repeat_seq(seq!['#'], if depth == 0 { 1 } else { depth as nat }) + seq![' '] + text + seq![
        '\n',
    ]
}

/// A numbered list item: `depth` tabs, `1. `, the text.
pub open spec fn ordered_item_text(depth: usize, text: Seq<char>) -> Seq<char> {
    repeat_seq(seq!['\t'], depth as nat) + seq!['1', '.', ' '] + text
}

/// An unnumbered list item: `depth` tabs, `- `, the text.
pub open spec fn unordered_item_text(depth: usize, text: Seq<char>) -> Seq<char> {
    repeat_seq(seq!['\t'], depth as nat) + seq!['-', ' '] + text
}

/// Bold text: the text between two pairs of `*`.
pub open spec fn bold_text(text: Seq<char>) -> Seq<char> {
    seq!['*', '*'] + text + seq!['*', '*']
}

/// The markdown that `element` stands for.
pub open spec fn element_text(element: Element) -> Seq<char> {
    match element {
        Element::BlockText(text) => block_text(text@),
        Element::Break => Seq::empty(),
        Element::Heading { depth, text } => heading_text(depth, text@),
        Element::OrderedList { depth, text } => ordered_item_text(depth, text@),
        Element::UnorderedList { depth, text } => unordered_item_text(depth, text@),
    }
}

/// The markdown that `text` stands for.
pub open spec fn text_markdown(text: Text) -> Seq<char> {
    match text {
        Text::Bold(t) => bold_text(t@),
    }
}

impl Element {
    /// Turn this element into text which is valid markdown.
    pub fn render(&self) -> (res: String)
        ensures
            res@ == element_text(*self),
    {
        proof {
            reveal_strlit("\n");
            reveal_strlit("#");
            reveal_strlit(" ");
            reveal_strlit("\t");
            reveal_strlit("1. ");
            reveal_strlit("- ");
            assert("\n"@ =~= seq!['\n']);
            assert("#"@ =~= seq!['#']);
            assert(" "@ =~= seq![' ']);
            assert("\t"@ =~= seq!['\t']);
            assert("1. "@ =~= seq!['1', '.', ' ']);
            assert("- "@ =~= seq!['-', ' ']);
        }
        match self {
            Element::BlockText(text) => {
                let mut res = text.clone();
                res.append("\n");
                res
            },
            Element::Break => String::new(),
            Element::Heading { depth, text } => {
                let hashes: usize = if *depth == 0 { 1 } else { *depth };
                let mut res = repeat_str("#", hashes);
                res.append(" ");
                res.append(text.as_str());
                res.append("\n");
                res
            },
            Element::OrderedList { depth, text } => {
                let mut res = repeat_str("\t", *depth);
                res.append("1. ");
                res.append(text.as_str());
                res
            },
            Element::UnorderedList { depth, text } => {
                let mut res = repeat_str("\t", *depth);
                res.append("- ");
                res.append(text.as_str());
                res
            },
        }
    }
}

impl Text {
    /// Turn this text into markdown.
    pub fn render(&self) -> (res: String)
        ensures
            res@ == text_markdown(*self),
    {
        proof {
            reveal_strlit("**");
            assert("**"@ =~= seq!['*', '*']);
        }
        match self {
            Text::Bold(t) => {
                let mut res = String::new();
                res.append("**");
                res.append(t.as_str());
                res.append("**");
                assert(res@ =~= seq!['*', '*'] + t@ + seq!['*', '*']);
                res
            },
        }
    }
}

} // verus!
