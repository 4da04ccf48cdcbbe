use clinvoice::markdown::{Element, Text};

fn line(expected: &mut String, element: Element)
{
	expected.push_str(&element.render());
	expected.push('\n');
}

#[test]
fn fmt()
{
	let mut expected = String::new();

	line(&mut expected, Element::Heading { depth: 1, text: "This is a test heading!".into() });
	line(&mut expected, Element::Heading { depth: 2, text: "Paragraphs".into() });
	line(&mut expected, Element::BlockText("I can create a paragraph.".into()));
	line(&mut expected, Element::Heading { depth: 2, text: "Lists".into() });
	line(&mut expected, Element::OrderedList {
		depth: 0,
		text: "Ordered lists are not a problem.".into(),
	});
	line(&mut expected, Element::OrderedList { depth: 0, text: "Continuing is just fine.".into() });
	line(&mut expected, Element::Break);
	line(&mut expected, Element::UnorderedList {
		depth: 0,
		text: "I can break at any point.".into(),
	});
	line(&mut expected, Element::UnorderedList { depth: 1, text: "Indenting? Eazy breezy.".into() });
	expected.push_str(
		&Element::UnorderedList { depth: 0, text: "De-indenting? Easier!".into() }.render(),
	);

	assert_eq!(
		expected,
		"# This is a test heading!

## Paragraphs

I can create a paragraph.

## Lists

1. Ordered lists are not a problem.
1. Continuing is just fine.

- I can break at any point.
	- Indenting? Eazy breezy.
- De-indenting? Easier!"
	);
}

#[test]
fn heading_depth_zero_gets_one_hash()
{
	assert_eq!(Element::Heading { depth: 0, text: "x".into() }.render(), "# x\n");
	assert_eq!(Element::Heading { depth: 3, text: "x".into() }.render(), "### x\n");
}

#[test]
fn break_is_empty()
{
	assert_eq!(Element::Break.render(), "");
}

#[test]
fn bold_text()
{
	assert_eq!(Text::Bold("Name".into()).render(), "**Name**");
	assert_eq!(
		Element::UnorderedList { depth: 2, text: Text::Bold("Client".into()).render() }.render(),
		"\t\t- **Client**"
	);
}
