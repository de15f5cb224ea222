use crate::error::failing_tokens;
use crate::tokens::{
    extend, group_token_views, group_view, tokens_view, Delimiter, Token, TokenView,
};
use crate::widgets::{Ident, IdentView};
use crate::widgets::generate::push_group;
use crate::widgets::generate::streams::{
    no_streams, with_widgets, TokenStreams, TraitImplDetails, TraitImplDetailsView,
};
use crate::widgets::parse::view::{spec_view, ViewWidgets};
use vstd::prelude::*;

verus! {

/// The code of a view that stands alone: the statements that build the
/// widgets, those that connect the signal handlers, those that assign the
/// properties, and, in braces, the code that reports the view's errors. The
/// model is called `_` and the sender `sender`. A view that cannot be read
/// becomes code that fails to compile with the error's message.
pub open spec fn spec_generate_tokens(input: Seq<TokenView>) -> Seq<TokenView> {
    match spec_view(input) {
        Err(e) => failing_tokens(e.kind.spec_message(), e.span),
        Ok(view) => {
            let streams = with_widgets(
                no_streams(),
                view.top_level_widgets,
                0,
                TraitImplDetailsView {
                    model_name: IdentView { name: "_"@, span: 0 },
                    root_name: None,
                },
                true,
            );
            (streams.init + streams.connect + streams.assign).push(
                group_view(Delimiter::Brace, streams.error, 0),
            )
        },
    }
}

/// Lowers the tokens of a view that stands alone to code.
pub fn generate_tokens(input: &Vec<Token>) -> (output: Vec<Token>)
    ensures
        tokens_view(output@) == spec_generate_tokens(tokens_view(input@)),
{
    broadcast use group_token_views;

    let view_widgets = match ViewWidgets::parse(input) {
        Ok(view_widgets) => view_widgets,
        Err(e) => {
            return e.to_failing_code();
        },
    };
    let TokenStreams { error, init, assign, connect } = view_widgets.generate_streams(
        &TraitImplDetails {
            vis: None,
            model_name: Ident { name: String::from_str("_"), span: 0 },
            sender_name: Ident { name: String::from_str("sender"), span: 0 },
            root_name: None,
        },
        true,
    );
    let mut output = init;
    extend(&mut output, &connect);
    extend(&mut output, &assign);
    push_group(&mut output, Delimiter::Brace, error, 0);
    output
}

} // verus!
