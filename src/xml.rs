use vstd::prelude::*;
use crate::composite::str_eq;

verus! {

/// How the events inside an element are handled.
pub enum Handler {
    /// Each element becomes a document node; `node` is the one made for this element.
    NodeCreation { node: Option<usize> },
    /// The character data of a style sheet is collected.
    Style { is_text_css: bool, text: String },
    /// An inclusion of another document.
    XInclude { needs_fallback: bool },
}

/// What a handler is.
pub enum HandlerView {
    NodeCreation { node: Option<usize> },
    Style { is_text_css: bool, text: Seq<char> },
    XInclude { needs_fallback: bool },
}

impl View for Handler {
    type V = HandlerView;

    open spec fn view(&self) -> HandlerView {
        match self {
            Handler::NodeCreation { node } => HandlerView::NodeCreation { node: *node },
            Handler::Style { is_text_css, text } => HandlerView::Style {
                is_text_css: *is_text_css,
                text: text@,
            },
            Handler::XInclude { needs_fallback } => HandlerView::XInclude {
                needs_fallback: *needs_fallback,
            },
        }
    }
}

/// An open element and the handler of the events inside it.
pub struct Context {
    pub element_name: String,
    pub handler: Handler,
}

/// What the caller does after an element starts.
#[derive(Debug, Clone, Copy, PartialEq, Eq, Structural)]
pub enum StartAction {
    /// Create node `node` for the element, as a child of `parent` when there is one.
    CreateNode { node: usize, parent: Option<usize> },
    /// Acquire the document that the element includes.
    Include,
    /// Nothing.
    Nothing,
}

/// What the caller does after an element ends.
pub enum EndAction {
    /// The element's node is complete.
    NodeDone { node: usize },
    /// Parse the collected text as a CSS style sheet.
    ParseStyleSheet { text: String },
    /// Nothing.
    Nothing,
}

/// What the caller does with character data.
#[derive(Debug, Clone, Copy, PartialEq, Eq, Structural)]
pub enum CharsAction {
    /// Append the text to the character content of `node`.
    AppendText { node: usize },
    /// Nothing.
    Nothing,
}

/// An event that does not fit the state.
#[derive(Debug, Clone, Copy, PartialEq, Eq, Structural)]
pub enum XmlError {
    /// An element ended, or character data came, with no element open.
    NoOpenElement,
    /// An element ended that is not the innermost open one.
    MismatchedEnd,
    /// A second root was completed.
    RootAlreadySet,
}

pub open spec fn text_css() -> Seq<char> {
    seq!['t', 'e', 'x', 't', '/', 'c', 's', 's']
}

pub open spec fn include_name() -> Seq<char> {
    seq!['i', 'n', 'c', 'l', 'u', 'd', 'e']
}

pub open spec fn style_name() -> Seq<char> {
    seq!['s', 't', 'y', 'l', 'e']
}

/// Whether a style element holds CSS: its type is `text/css`, or it has none.
pub open spec fn is_css_type(type_attr: Option<Seq<char>>) -> bool {
    match type_attr {
        Some(t) => t == text_css(),
        None => true,
    }
}

/// The handler of an element named `name` that starts inside an element handled by `top`
/// (or at the top level): a style sheet stays a style sheet, an inclusion stays an inclusion;
/// elsewhere `include` and `style` start one, and any other element becomes node `new_node`.
pub open spec fn spec_next_handler(
    top: Option<HandlerView>,
    name: Seq<char>,
    type_attr: Option<Seq<char>>,
    new_node: usize,
) -> HandlerView {
    let style = HandlerView::Style { is_text_css: is_css_type(type_attr), text: Seq::empty() };
    match top {
        Some(HandlerView::Style { .. }) => style,
        Some(HandlerView::XInclude { .. }) => HandlerView::XInclude { needs_fallback: true },
        _ => if name == include_name() {
            HandlerView::XInclude { needs_fallback: true }
        } else if name == style_name() {
            style
        } else {
            HandlerView::NodeCreation { node: Some(new_node) }
        },
    }
}

/// The node of a handler, if it makes nodes.
pub open spec fn handler_node(h: Option<HandlerView>) -> Option<usize> {
    match h {
        Some(HandlerView::NodeCreation { node }) => node,
        _ => None,
    }
}

/// The state of reading a document: the open elements, innermost last, and the root node once
/// the outermost element has ended.
pub struct XmlState {
    root: Option<usize>,
    context_stack: Vec<Context>,
}

impl XmlState {
    pub closed spec fn spec_root(&self) -> Option<usize> {
        self.root
    }

    /// The open elements with their handlers, innermost last.
    pub closed spec fn stack(&self) -> Seq<(Seq<char>, HandlerView)> {
        self.context_stack@.map_values(|c: Context| (c.element_name@, c.handler@))
    }

    pub open spec fn top(&self) -> Option<HandlerView> {
        if self.stack().len() == 0 {
            None
        } else {
            Some(self.stack().last().1)
        }
    }

    pub fn new() -> (r: XmlState)
        ensures
            r.spec_root().is_none(),
            r.stack() == Seq::<(Seq<char>, HandlerView)>::empty(),
    {
        let r = XmlState { root: None, context_stack: Vec::new() };
        assert(r.stack() =~= Seq::<(Seq<char>, HandlerView)>::empty());
        r
    }

    /// Sets the root node; there can be only one.
    pub fn set_root(&mut self, root: usize) -> (r: Result<(), XmlError>)
        ensures
            old(self).spec_root().is_some() <==> r.is_err(),
            r.is_err() ==> r == Err::<(), XmlError>(XmlError::RootAlreadySet),
            final(self).spec_root() == if r.is_ok() {
                Some(root)
            } else {
                old(self).spec_root()
            },
            final(self).stack() == old(self).stack(),
    {
        if self.root.is_some() {
            return Err(XmlError::RootAlreadySet);
        }
        self.root = Some(root);
        Ok(())
    }

    /// Takes the root node out of the state.
    pub fn steal_tree(&mut self) -> (r: Option<usize>)
        ensures
            r == old(self).spec_root(),
            final(self).spec_root().is_none(),
            final(self).stack() == old(self).stack(),
    {
        self.root.take()
    }

    /// An element starts: its handler is chosen from the innermost open element's and pushed.
    /// `new_node` is the node the caller creates when told to.
    pub fn start_element(&mut self, name: &str, type_attr: Option<&str>, new_node: usize) -> (r:
        StartAction)
        ensures
            final(self).spec_root() == old(self).spec_root(),
            final(self).stack() == old(self).stack().push(
                (
                    name@,
                    spec_next_handler(
                        old(self).top(),
                        name@,
                        match type_attr {
                            Some(t) => Some(t@),
                            None => None,
                        },
                        new_node,
                    ),
                ),
            ),
            r == match final(self).top() {
                Some(HandlerView::NodeCreation { node: Some(n) }) => StartAction::CreateNode {
                    node: n,
                    parent: handler_node(old(self).top()),
                },
                Some(HandlerView::XInclude { .. }) => StartAction::Include,
                _ => StartAction::Nothing,
            },
    {
        proof {
            reveal_strlit("include");
            reveal_strlit("style");
            reveal_strlit("text/css");
            assert("include"@ =~= include_name());
            assert("style"@ =~= style_name());
            assert("text/css"@ =~= text_css());
        }
        let ghost old_stack = self.stack();
        let n = self.context_stack.len();
        let is_css = match type_attr {
            Some(t) => str_eq(t, "text/css"),
            None => true,
        };
        let (top_kind, parent): (u8, Option<usize>) = if n == 0 {
            (0, None)
        } else {
            match &self.context_stack[n - 1].handler {
                Handler::NodeCreation { node } => (0, *node),
                Handler::Style { .. } => (1, None),
                Handler::XInclude { .. } => (2, None),
            }
        };
        let handler = if top_kind == 1 {
            Handler::Style { is_text_css: is_css, text: String::new() }
        } else if top_kind == 2 {
            Handler::XInclude { needs_fallback: true }
        } else if str_eq(name, "include") {
            Handler::XInclude { needs_fallback: true }
        } else if str_eq(name, "style") {
            Handler::Style { is_text_css: is_css, text: String::new() }
        } else {
            Handler::NodeCreation { node: Some(new_node) }
        };
        let action = match &handler {
            Handler::NodeCreation { .. } => StartAction::CreateNode { node: new_node, parent },
            Handler::XInclude { .. } => StartAction::Include,
            Handler::Style { .. } => StartAction::Nothing,
        };
        self.context_stack.push(Context { element_name: name.to_owned(), handler });
        proof {
            assert(self.stack() =~= old_stack.push((name@, self.context_stack@.last().handler@)));
        }
        action
    }

    /// An element ends: the innermost open element, which must have the same name, is closed.
    /// A completed node with nothing open around it becomes the root.
    pub fn end_element(&mut self, name: &str) -> (r: Result<EndAction, XmlError>)
        ensures
            old(self).stack().len() == 0 ==> r == Err::<EndAction, XmlError>(XmlError::NoOpenElement)
                && final(self).stack() == old(self).stack() && final(self).spec_root() == old(
                self,
            ).spec_root(),
            old(self).stack().len() > 0 && old(self).stack().last().0 != name@ ==> r == Err::<
                EndAction,
                XmlError,
            >(XmlError::MismatchedEnd) && final(self).stack() == old(self).stack()
                && final(self).spec_root() == old(self).spec_root(),
            old(self).stack().len() > 0 && old(self).stack().last().0 == name@ ==> {
                let h = old(self).stack().last().1;
                let rest = old(self).stack().drop_last();
                &&& final(self).stack() == rest
                &&& match h {
                    HandlerView::NodeCreation { node: Some(n) } => if rest.len() == 0 {
                        if old(self).spec_root().is_some() {
                            r == Err::<EndAction, XmlError>(XmlError::RootAlreadySet)
                                && final(self).spec_root() == old(self).spec_root()
                        } else {
                            r matches Ok(EndAction::NodeDone { node }) && node == n
                                && final(self).spec_root() == Some(n)
                        }
                    } else {
                        r matches Ok(EndAction::NodeDone { node }) && node == n
                            && final(self).spec_root() == old(self).spec_root()
                    },
                    HandlerView::Style { is_text_css: true, text } => r matches Ok(
                        EndAction::ParseStyleSheet { text: t },
                    ) && t@ == text && final(self).spec_root() == old(self).spec_root(),
                    _ => r matches Ok(EndAction::Nothing) && final(self).spec_root() == old(
                        self,
                    ).spec_root(),
                }
            },
    {
        let n = self.context_stack.len();
        if n == 0 {
            return Err(XmlError::NoOpenElement);
        }
        if !str_eq(self.context_stack[n - 1].element_name.as_str(), name) {
            return Err(XmlError::MismatchedEnd);
        }
        let ghost old_stack = self.stack();
        let top = self.context_stack.pop().unwrap();
        proof {
            assert(self.stack() =~= old_stack.drop_last());
        }
        match top.handler {
            Handler::NodeCreation { node: Some(node) } => {
                if self.context_stack.len() == 0 {
                    match self.set_root(node) {
                        Ok(()) => Ok(EndAction::NodeDone { node }),
                        Err(e) => Err(e),
                    }
                } else {
                    Ok(EndAction::NodeDone { node })
                }
            },
            Handler::Style { is_text_css, text } => {
                if is_text_css {
                    Ok(EndAction::ParseStyleSheet { text })
                } else {
                    Ok(EndAction::Nothing)
                }
            },
            _ => Ok(EndAction::Nothing),
        }
    }

    /// Character data inside the innermost open element: a style sheet collects it, a node
    /// receives it when it is not empty.
    pub fn characters(&mut self, text: &str) -> (r: Result<CharsAction, XmlError>)
        ensures
            final(self).spec_root() == old(self).spec_root(),
            old(self).stack().len() == 0 ==> r == Err::<CharsAction, XmlError>(
                XmlError::NoOpenElement,
            ) && final(self).stack() == old(self).stack(),
            old(self).stack().len() > 0 ==> match old(self).stack().last().1 {
                HandlerView::Style { is_text_css, text: t } => r == Ok::<CharsAction, XmlError>(
                    CharsAction::Nothing,
                ) && final(self).stack() == old(self).stack().drop_last().push(
                    (
                        old(self).stack().last().0,
                        HandlerView::Style { is_text_css, text: t + text@ },
                    ),
                ),
                HandlerView::NodeCreation { node: Some(n) } => final(self).stack() == old(
                    self,
                ).stack() && r == Ok::<CharsAction, XmlError>(
                    if text@.len() == 0 {
                        CharsAction::Nothing
                    } else {
                        CharsAction::AppendText { node: n }
                    },
                ),
                _ => final(self).stack() == old(self).stack() && r == Ok::<CharsAction, XmlError>(
                    CharsAction::Nothing,
                ),
            },
    {
        let n = self.context_stack.len();
        if n == 0 {
            return Err(XmlError::NoOpenElement);
        }
        let ghost old_stack = self.stack();
        let mut top = self.context_stack.pop().unwrap();
        proof {
            assert(self.stack() =~= old_stack.drop_last());
        }
        let action = match &mut top.handler {
            Handler::Style { text: t, .. } => {
                t.append(text);
                CharsAction::Nothing
            },
            Handler::NodeCreation { node: Some(node) } => {
                if text.unicode_len() == 0 {
                    CharsAction::Nothing
                } else {
                    CharsAction::AppendText { node: *node }
                }
            },
            _ => CharsAction::Nothing,
        };
        self.context_stack.push(top);
        proof {
            assert(self.stack() =~= old_stack.drop_last().push(
                (self.context_stack@.last().element_name@, self.context_stack@.last().handler@),
            ));
            if !(old_stack.last().1 is Style) {
                assert(self.stack() =~= old_stack);
            }
        }
        Ok(action)
    }
}

} // verus!
