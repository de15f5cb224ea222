use crate::error::{ErrorKind, ParseError};
use crate::tokens::{at_punct, group_token_views, is_punct, span_of, tokens_view, Token, TokenView};
use crate::widgets::{group_widget_views, Attr, AttrKind, AttrView, Attrs, Widget, WidgetView};
use crate::widgets::parse::{parsed_view, result_view};
use crate::widgets::parse::attrs::{parse_attrs, spec_attrs};
use crate::widgets::parse::grammar::{err, spec_widget, widget_wf};
use vstd::prelude::*;

verus! {

/// A widget at the top of a view, and the span of `root` where it is marked
/// as the view's root.
#[derive(Debug, PartialEq, Eq)]
pub struct TopLevelWidget {
    pub root_attr: Option<usize>,
    pub inner: Widget,
}

pub struct TopLevelWidgetView {
    pub root_attr: Option<usize>,
    pub inner: WidgetView,
}

impl View for TopLevelWidget {
    type V = TopLevelWidgetView;

    open spec fn view(&self) -> TopLevelWidgetView {
        TopLevelWidgetView { root_attr: self.root_attr, inner: self.inner@ }
    }
}

/// The widgets of one view, in the order in which they were declared.
#[derive(Debug, PartialEq, Eq)]
pub struct ViewWidgets {
    /// The span of the first token.
    pub span: usize,
    pub top_level_widgets: Vec<TopLevelWidget>,
}

pub struct ViewWidgetsView {
    pub span: usize,
    pub top_level_widgets: Seq<TopLevelWidgetView>,
}

pub open spec fn top_level_view(ws: Seq<TopLevelWidget>) -> Seq<TopLevelWidgetView> {
    Seq::new(ws.len(), |i: int| ws[i]@)
}

impl View for ViewWidgets {
    type V = ViewWidgetsView;

    open spec fn view(&self) -> ViewWidgetsView {
        ViewWidgetsView {
            span: self.span,
            top_level_widgets: top_level_view(self.top_level_widgets@),
        }
    }
}

/// The attributes from `from` on without `root`, behind those of `kept`,
/// and the span of `root` where it stood among them; it may stand once.
pub open spec fn split_root(attrs: Seq<AttrView>, from: int, root: Option<usize>, kept: Seq<AttrView>) -> Result<
    (Option<usize>, Seq<AttrView>),
    ParseError,
>
    decreases attrs.len() - from,
{
    if 0 <= from < attrs.len() {
        if attrs[from].kind is Root {
            if root.is_some() {
                err(ErrorKind::AttributeTwice, attrs[from].span)
            } else {
                split_root(attrs, from + 1, Some(attrs[from].span), kept)
            }
        } else {
            split_root(attrs, from + 1, root, kept.push(attrs[from]))
        }
    } else {
        Ok((root, kept))
    }
}

/// Whether one of `ws` has the name `name`.
pub open spec fn top_declares(ws: Seq<TopLevelWidgetView>, name: Seq<char>) -> bool {
    exists|i: int| 0 <= i < ws.len() && (#[trigger] ws[i]).inner.name.name == name
}

/// Whether no two of `ws` have the same name.
pub open spec fn top_names_unique(ws: Seq<TopLevelWidgetView>) -> bool {
    forall|i: int, j: int|
        0 <= i < j < ws.len() ==> (#[trigger] ws[i]).inner.name.name != (#[trigger] ws[j]).inner.name.name
}

/// The top-level widget that starts at `pos`: attributes, of which `root`
/// is taken off, and a widget.
pub open spec fn spec_top_level(ts: Seq<TokenView>, pos: int, end: usize) -> Result<
    (TopLevelWidgetView, int),
    ParseError,
> {
    match spec_attrs(ts, pos) {
        Err(e) => Err(e),
        Ok((attrs, pos1)) => {
            let split: Result<(Option<usize>, Option<Seq<AttrView>>), ParseError> = match attrs {
                Some(attrs) => match split_root(attrs, 0, None, Seq::empty()) {
                    Ok((root, kept)) => Ok((root, Some(kept))),
                    Err(e) => Err(e),
                },
                None => Ok((None, None)),
            };
            match split {
                Err(e) => Err(e),
                Ok((root_attr, kept)) => match spec_widget(ts, pos1, end, kept, None) {
                    Err(e) => Err(e),
                    Ok((inner, next)) => Ok((TopLevelWidgetView { root_attr, inner }, next)),
                },
            }
        },
    }
}

/// The top-level widgets from `pos` on, behind those of `acc`. A comma may
/// stand behind each. A widget whose name one before it has is an error.
pub open spec fn spec_view_widgets(ts: Seq<TokenView>, pos: int, end: usize, acc: Seq<TopLevelWidgetView>) -> Result<
    Seq<TopLevelWidgetView>,
    ParseError,
>
    decreases ts.len() - pos,
{
    if 0 <= pos < ts.len() {
        match spec_top_level(ts, pos, end) {
            Err(e) => Err(e),
            Ok((w, next)) => if top_declares(acc, w.inner.name.name) {
                err(ErrorKind::NameConflict, w.inner.name.span)
            } else if !(pos < next <= ts.len()) {
                err(ErrorKind::UnexpectedToken, end)
            } else {
                spec_view_widgets(
                    ts,
                    if at_punct(ts, next, ',') {
                        next + 1
                    } else {
                        next
                    },
                    end,
                    acc.push(w),
                )
            },
        }
    } else {
        Ok(acc)
    }
}

/// The view that the tokens declare.
pub open spec fn spec_view(ts: Seq<TokenView>) -> Result<ViewWidgetsView, ParseError> {
    match spec_view_widgets(ts, 0, 0, Seq::empty()) {
        Ok(ws) => Ok(
            ViewWidgetsView {
                span: if ts.len() > 0 {
                    ts[0].span
                } else {
                    0
                },
                top_level_widgets: ws,
            },
        ),
        Err(e) => Err(e),
    }
}

/// No two top-level widgets of a view that was read have the same name.
pub proof fn lemma_view_names_unique(ts: Seq<TokenView>, pos: int, end: usize, acc: Seq<TopLevelWidgetView>)
    requires
        top_names_unique(acc),
        spec_view_widgets(ts, pos, end, acc) is Ok,
    ensures
        top_names_unique(spec_view_widgets(ts, pos, end, acc)->Ok_0),
    decreases ts.len() - pos,
{
    if 0 <= pos < ts.len() {
        match spec_top_level(ts, pos, end) {
            Err(e) => {},
            Ok((w, next)) => {
                if !top_declares(acc, w.inner.name.name) && pos < next <= ts.len() {
                    let grown = acc.push(w);
                    assert forall|i: int, j: int| 0 <= i < j < grown.len() implies (#[trigger] grown[i]).inner.name.name
                        != (#[trigger] grown[j]).inner.name.name by {
                        if j == acc.len() {
                            assert(acc[i].inner.name.name != w.inner.name.name);
                        } else {
                            assert(acc[i].inner.name.name != acc[j].inner.name.name);
                        }
                    }
                    lemma_view_names_unique(
                        ts,
                        if at_punct(ts, next, ',') {
                            next + 1
                        } else {
                            next
                        },
                        end,
                        grown,
                    );
                }
            },
        }
    }
}

/// Takes `root` off the attributes.
fn take_root(attrs: Attrs) -> (r: Result<(Option<usize>, Attrs), ParseError>)
    ensures
        match r {
            Ok((root, kept)) => split_root(attrs@, 0, None, Seq::empty()) == Ok::<
                (Option<usize>, Seq<AttrView>),
                ParseError,
            >((root, kept@)),
            Err(e) => split_root(attrs@, 0, None, Seq::empty()) == Err::<
                (Option<usize>, Seq<AttrView>),
                ParseError,
            >(e),
        },
{
    let ghost all = attrs@;
    let mut root: Option<usize> = None;
    let mut kept: Vec<Attr> = Vec::new();
    let list = attrs.inner;
    proof {
        assert((Attrs { inner: kept })@ =~= Seq::<AttrView>::empty());
    }
    for attr in it: list
        invariant
            it.seq() == list@,
            all == (Attrs { inner: list })@,
            all == attrs@,
            split_root(all, it.index(), root, (Attrs { inner: kept })@) == split_root(
                all,
                0,
                None,
                Seq::empty(),
            ),
    {
        let ghost before = (Attrs { inner: kept })@;
        let ghost av = attr@;
        proof {
            assert(all[it.index()] == av);
        }
        let is_root = match &attr.kind {
            AttrKind::Root => true,
            _ => false,
        };
        if is_root {
            if root.is_some() {
                return Err(ParseError::new(ErrorKind::AttributeTwice, attr.span));
            }
            root = Some(attr.span);
        } else {
            kept.push(attr);
            proof {
                assert((Attrs { inner: kept })@ =~= before.push(av));
            }
        }
    }
    Ok((root, Attrs { inner: kept }))
}

impl TopLevelWidget {
    /// Reads the top-level widget that starts at `pos`.
    pub fn parse(ts: &Vec<Token>, pos: usize, end: usize) -> (r: Result<
        (TopLevelWidget, usize),
        ParseError,
    >)
        requires
            pos <= ts.len(),
        ensures
            parsed_view(r) == spec_top_level(
                tokens_view(ts@),
                pos as int,
                end,
            ),
            r matches Ok((_, next)) ==> pos < next <= ts.len(),
            r matches Ok((w, _)) ==> widget_wf(w@.inner),
    {
        let (attrs, pos1) = match parse_attrs(ts, pos) {
            Ok(found) => found,
            Err(e) => {
                return Err(e);
            },
        };
        let (root_attr, kept) = match attrs {
            Some(attrs) => match take_root(attrs) {
                Ok((root, kept)) => (root, Some(kept)),
                Err(e) => {
                    return Err(e);
                },
            },
            None => (None, None),
        };
        match Widget::parse(ts, pos1, end, kept, None) {
            Ok((inner, next)) => Ok((TopLevelWidget { root_attr, inner }, next)),
            Err(e) => Err(e),
        }
    }
}

fn top_declares_name(ws: &Vec<TopLevelWidget>, name: &String) -> (b: bool)
    ensures
        b == top_declares(top_level_view(ws@), name@),
{
    broadcast use group_widget_views;

    let ghost all = top_level_view(ws@);
    let mut i: usize = 0;
    while i < ws.len()
        invariant
            i <= ws.len(),
            all == top_level_view(ws@),
            forall|j: int| 0 <= j < i ==> (#[trigger] all[j]).inner.name.name != name@,
        decreases ws.len() - i,
    {
        proof {
            assert(all[i as int] == ws@[i as int]@);
        }
        if ws[i].inner.name.name == *name {
            proof {
                assert(all[i as int].inner.name.name == name@);
            }
            return true;
        }
        i += 1;
    }
    false
}

impl ViewWidgets {
    /// Reads the widgets of a view.
    pub fn parse(ts: &Vec<Token>) -> (r: Result<ViewWidgets, ParseError>)
        ensures
            result_view(r) == spec_view(tokens_view(ts@)),
            r matches Ok(view) ==> top_names_unique(view@.top_level_widgets),
            r matches Ok(view) ==> forall|i: int|
                0 <= i < view@.top_level_widgets.len() ==> widget_wf(
                    (#[trigger] view@.top_level_widgets[i]).inner,
                ),
    {
        broadcast use group_token_views;
        broadcast use group_widget_views;

        let ghost tv = tokens_view(ts@);
        let span = span_of(ts, 0, 0);
        let mut widgets: Vec<TopLevelWidget> = Vec::new();
        let mut pos: usize = 0;
        proof {
            assert(top_level_view(widgets@) =~= Seq::<TopLevelWidgetView>::empty());
        }
        while pos < ts.len()
            invariant
                pos <= ts.len(),
                tv == tokens_view(ts@),
                forall|i: int|
                    0 <= i < widgets@.len() ==> widget_wf((#[trigger] widgets@[i])@.inner),
                spec_view_widgets(tv, pos as int, 0, top_level_view(widgets@)) == spec_view_widgets(
                    tv,
                    0,
                    0,
                    Seq::empty(),
                ),
            decreases ts.len() - pos,
        {
            let ghost acc = top_level_view(widgets@);
            let (w, next) = match TopLevelWidget::parse(ts, pos, 0) {
                Ok(found) => found,
                Err(e) => {
                    return Err(e);
                },
            };
            if top_declares_name(&widgets, &w.inner.name.name) {
                return Err(ParseError::new(ErrorKind::NameConflict, w.inner.name.span));
            }
            let ghost wv = w@;
            widgets.push(w);
            proof {
                assert(top_level_view(widgets@) =~= acc.push(wv));
            }
            pos = if is_punct(ts, next, ',') {
                next + 1
            } else {
                next
            };
        }
        proof {
            lemma_view_names_unique(tv, 0, 0, Seq::empty());
        }
        Ok(ViewWidgets { span, top_level_widgets: widgets })
    }
}

} // verus!
