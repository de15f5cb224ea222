use crate::error::{ErrorKind, ParseError};
use crate::tokens::{group_token_views, lemma_view_concat, Token, TokenView};
use crate::widgets::{
    opt_attrs_view, opt_ident_view, opt_path_view, opt_tokens_view, AttrKind, AttrKindView,
    AttrView, Attrs, Ident, IdentView, Path, PathView, Widget, WidgetAttr, WidgetTemplateAttr,
};
use crate::widgets::parse::result_view;
use vstd::prelude::*;

verus! {

/// What the attributes before a widget say of it.
#[derive(Debug, PartialEq, Eq)]
pub struct AttributeInfo {
    pub attr: WidgetAttr,
    pub doc_attr: Option<Vec<Token>>,
    pub name: Option<Ident>,
    pub assign_wrapper: Option<Path>,
    pub template_attr: WidgetTemplateAttr,
}

pub struct AttributeInfoView {
    pub attr: WidgetAttr,
    pub doc_attr: Option<Seq<TokenView>>,
    pub name: Option<IdentView>,
    pub assign_wrapper: Option<PathView>,
    pub template_attr: WidgetTemplateAttr,
}

impl View for AttributeInfo {
    type V = AttributeInfoView;

    open spec fn view(&self) -> AttributeInfoView {
        AttributeInfoView {
            attr: self.attr,
            doc_attr: opt_tokens_view(self.doc_attr),
            name: opt_ident_view(self.name),
            assign_wrapper: opt_path_view(self.assign_wrapper),
            template_attr: self.template_attr,
        }
    }
}

/// What is known of a widget before any attribute is read.
pub open spec fn no_attributes() -> AttributeInfoView {
    AttributeInfoView {
        attr: WidgetAttr::Unset,
        doc_attr: None,
        name: None,
        assign_wrapper: None,
        template_attr: WidgetTemplateAttr::Unset,
    }
}

pub open spec fn twice(span: usize) -> ParseError {
    ParseError { kind: ErrorKind::AttributeTwice, span }
}

/// `info` with one more attribute taken in. Doc comments add up; every other
/// kind may stand once; `local` and `local_ref` exclude each other, and so do
/// `template` and `template_child`.
pub open spec fn with_attribute(info: AttributeInfoView, a: AttrView) -> Result<
    AttributeInfoView,
    ParseError,
> {
    match a.kind {
        AttrKindView::Local => if info.attr == WidgetAttr::Unset {
            Ok(AttributeInfoView { attr: WidgetAttr::Local, ..info })
        } else {
            Err(twice(a.span))
        },
        AttrKindView::LocalRef => if info.attr == WidgetAttr::Unset {
            Ok(AttributeInfoView { attr: WidgetAttr::LocalRef, ..info })
        } else {
            Err(twice(a.span))
        },
        AttrKindView::Doc(tokens) => Ok(
            AttributeInfoView {
                doc_attr: Some(
                    match info.doc_attr {
                        Some(doc) => doc + tokens,
                        None => tokens,
                    },
                ),
                ..info
            },
        ),
        AttrKindView::Name(name) => if info.name.is_some() {
            Err(twice(a.span))
        } else {
            Ok(AttributeInfoView { name: Some(name), ..info })
        },
        AttrKindView::Wrap(path) => if info.assign_wrapper.is_some() {
            Err(twice(a.span))
        } else {
            Ok(AttributeInfoView { assign_wrapper: Some(path), ..info })
        },
        AttrKindView::Template => if info.template_attr != WidgetTemplateAttr::Unset {
            Err(twice(a.span))
        } else {
            Ok(AttributeInfoView { template_attr: WidgetTemplateAttr::Template, ..info })
        },
        AttrKindView::TemplateChild => if info.template_attr != WidgetTemplateAttr::Unset {
            Err(twice(a.span))
        } else {
            Ok(AttributeInfoView { template_attr: WidgetTemplateAttr::TemplateChild, ..info })
        },
        _ => Err(ParseError { kind: ErrorKind::WidgetAttribute, span: a.span }),
    }
}

/// `info` with the attributes from `from` on taken in, in order, up to the
/// first that is refused.
pub open spec fn with_attributes(info: AttributeInfoView, attrs: Seq<AttrView>, from: int) -> Result<
    AttributeInfoView,
    ParseError,
>
    decreases attrs.len() - from,
{
    if 0 <= from < attrs.len() {
        match with_attribute(info, attrs[from]) {
            Ok(next) => with_attributes(next, attrs, from + 1),
            Err(e) => Err(e),
        }
    } else {
        Ok(info)
    }
}

/// What the attributes before a widget say of it, or the first error among
/// them.
#[verifier::opaque]
pub open spec fn spec_process_attributes(attrs: Option<Seq<AttrView>>) -> Result<
    AttributeInfoView,
    ParseError,
> {
    match attrs {
        Some(attrs) => with_attributes(no_attributes(), attrs, 0),
        None => Ok(no_attributes()),
    }
}

impl Widget {
    /// Sorts the attributes before a widget into what they say of it.
    pub fn process_attributes(attrs: Option<Attrs>) -> (r: Result<AttributeInfo, ParseError>)
        ensures
            result_view(r) == spec_process_attributes(opt_attrs_view(attrs)),
    {
        broadcast use group_token_views;

        proof {
            reveal(spec_process_attributes);
        }
        let ghost given = opt_attrs_view(attrs);
        let present = match attrs {
            Some(present) => present,
            None => {
                return Ok(
                    AttributeInfo {
                        attr: WidgetAttr::Unset,
                        doc_attr: None,
                        name: None,
                        assign_wrapper: None,
                        template_attr: WidgetTemplateAttr::Unset,
                    },
                );
            },
        };
        let ghost all = present@;
        let mut info = AttributeInfo {
            attr: WidgetAttr::Unset,
            doc_attr: None,
            name: None,
            assign_wrapper: None,
            template_attr: WidgetTemplateAttr::Unset,
        };
        let list = present.inner;
        for attr in it: list
            invariant
                it.seq() == list@,
                all == (Attrs { inner: list })@,
                given == Some(all),
                given == opt_attrs_view(attrs),
                with_attributes(info@, all, it.index()) == with_attributes(no_attributes(), all, 0),
        {
            proof {
                reveal(spec_process_attributes);
            }
            let ghost before = info@;
            let ghost a = attr@;
            proof {
                assert(all[it.index()] == a);
            }
            let span = attr.span;
            match attr.kind {
                AttrKind::Local => {
                    if info.attr == WidgetAttr::Unset {
                        info.attr = WidgetAttr::Local;
                        proof {
                            assert(with_attribute(before, a) == Ok::<AttributeInfoView, ParseError>(
                                info@,
                            ));
                        }
                    } else {
                        return Err(ParseError::new(ErrorKind::AttributeTwice, span));
                    }
                },
                AttrKind::LocalRef => {
                    if info.attr == WidgetAttr::Unset {
                        info.attr = WidgetAttr::LocalRef;
                        proof {
                            assert(with_attribute(before, a) == Ok::<AttributeInfoView, ParseError>(
                                info@,
                            ));
                        }
                    } else {
                        return Err(ParseError::new(ErrorKind::AttributeTwice, span));
                    }
                },
                AttrKind::Doc(tokens) => {
                    let mut tokens = tokens;
                    let ghost added = tokens@;
                    match info.doc_attr {
                        Some(doc) => {
                            let mut doc = doc;
                            let ghost had = doc@;
                            doc.append(&mut tokens);
                            proof {
                                lemma_view_concat(had, added);
                                assert(doc@ == had + added);
                            }
                            info.doc_attr = Some(doc);
                        },
                        None => {
                            info.doc_attr = Some(tokens);
                        },
                    }
                    proof {
                        assert(with_attribute(before, a) == Ok::<AttributeInfoView, ParseError>(
                            info@,
                        ));
                    }
                },
                AttrKind::Name(name) => {
                    if info.name.is_some() {
                        return Err(ParseError::new(ErrorKind::AttributeTwice, span));
                    }
                    info.name = Some(name);
                    proof {
                        assert(with_attribute(before, a) == Ok::<AttributeInfoView, ParseError>(
                            info@,
                        ));
                    }
                },
                AttrKind::Wrap(path) => {
                    if info.assign_wrapper.is_some() {
                        return Err(ParseError::new(ErrorKind::AttributeTwice, span));
                    }
                    info.assign_wrapper = Some(path);
                    proof {
                        assert(with_attribute(before, a) == Ok::<AttributeInfoView, ParseError>(
                            info@,
                        ));
                    }
                },
                AttrKind::Template => {
                    if info.template_attr != WidgetTemplateAttr::Unset {
                        return Err(ParseError::new(ErrorKind::AttributeTwice, span));
                    }
                    info.template_attr = WidgetTemplateAttr::Template;
                    proof {
                        assert(with_attribute(before, a) == Ok::<AttributeInfoView, ParseError>(
                            info@,
                        ));
                    }
                },
                AttrKind::TemplateChild => {
                    if info.template_attr != WidgetTemplateAttr::Unset {
                        return Err(ParseError::new(ErrorKind::AttributeTwice, span));
                    }
                    info.template_attr = WidgetTemplateAttr::TemplateChild;
                    proof {
                        assert(with_attribute(before, a) == Ok::<AttributeInfoView, ParseError>(
                            info@,
                        ));
                    }
                },
                _ => {
                    return Err(ParseError::new(ErrorKind::WidgetAttribute, span));
                },
            }
            proof {
                assert(with_attribute(before, a) == Ok::<AttributeInfoView, ParseError>(info@));
            }
        }
        Ok(info)
    }
}

} // verus!
