use crate::tokens::{
    group_token_views, group_view, ident_view, literal_view, punct_view, tokens_view, Delimiter,
    Token, TokenView,
};
use vstd::prelude::*;

verus! {

/// What went wrong while a block of the widget language was read.
#[derive(Clone, Copy, Debug, PartialEq, Eq, Structural)]
pub enum ErrorKind {
    /// An attribute of one kind stands twice before one item.
    AttributeTwice,
    /// An attribute that a widget cannot have.
    WidgetAttribute,
    /// An attribute that a conditional widget cannot have.
    ConditionalAttribute,
    /// An attribute that an assignment cannot have.
    PropertyAttribute,
    /// A word inside `#[..]` that names no attribute.
    UnknownAttribute,
    /// An attribute whose argument is missing or malformed.
    AttributeArgument,
    /// A widget taken from a local variable or a template is given a new name.
    RenameLocal,
    /// A widget is named by more than one of attribute, assignment and local
    /// variable.
    NameTwice,
    /// A widget taken from a local variable or a template is not a single
    /// identifier.
    LocalIdent,
    /// A template child stands in a widget that is no template.
    TemplateChild,
    /// A widget that is appended to a container has a wrapper.
    ContainerWrapper,
    /// Two widgets of one block have the same name.
    NameConflict,
    /// A path was expected.
    ExpectedPath,
    /// An identifier was expected.
    ExpectedIdent,
    /// An expression was expected.
    ExpectedExpr,
    /// A pattern was expected.
    ExpectedPattern,
    /// A block in braces was expected.
    ExpectedBraces,
    /// `,` was expected.
    ExpectedComma,
    /// `:` was expected.
    ExpectedColon,
    /// `=>` was expected.
    ExpectedFatArrow,
    /// `:`, `=` or `=>` was expected behind a property's name.
    ExpectedAssign,
    /// `if` or `match` was expected.
    ExpectedConditional,
    /// A string literal was expected.
    ExpectedString,
    /// A token is left over where a block should end.
    UnexpectedToken,
    /// A property's name is neither an identifier nor a plain path.
    PropertyName,
    /// More than one `view!` block stands in one impl.
    DuplicateViewMacro,
    /// More than one `additional_fields!` block stands in one impl.
    DuplicateAdditionalFields,
    /// More than one `menu!` block stands in one impl.
    DuplicateMenuMacro,
    /// More than one `init_widgets` function stands in one impl.
    DuplicateInitWidgets,
    /// The impl defines the type `Root` itself.
    RootTypeDefined,
    /// The parameter that holds the root widget is no identifier.
    RootName,
    /// The parameter that holds the sender is no identifier.
    SenderName,
    /// The model that the initializer returns is no identifier.
    ModelName,
    /// More than one `pre_view` function stands in one impl.
    DuplicatePreView,
    /// More than one `post_view` function stands in one impl.
    DuplicatePostView,
    /// An initializer holds no `view_output!()`.
    InjectionPoint,
    /// No widgets type is named, and none can be derived from `Self`.
    WidgetsType,
    /// The fields of an `additional_fields!` block cannot be read.
    AdditionalFields,
    /// An item of a menu is neither an entry, a section nor a custom item.
    ExpectedMenuEntry,
}

/// An error with the span of the token it is about.
#[derive(Clone, Copy, Debug, PartialEq, Eq, Structural)]
pub struct ParseError {
    pub kind: ErrorKind,
    pub span: usize,
}

impl ErrorKind {
    /// The text that the user is shown.
    pub open spec fn spec_message(self) -> Seq<char> {
        match self {
            ErrorKind::AttributeTwice => "Cannot use the same attribute twice."@,
            ErrorKind::WidgetAttribute => "Widgets can only have docs and `local`, `local_ref`, `wrap`, `name`, `template`, `template_child` or `root` as attribute."@,
            ErrorKind::ConditionalAttribute => "Conditional widgets can only have docs and `name`, `transition` or `wrap` as attribute."@,
            ErrorKind::PropertyAttribute => "Assignments can only have `watch` or `track` as attribute."@,
            ErrorKind::UnknownAttribute => "Expected `local`, `local_ref`, `root`, `iterate`, `watch`, `track`, `name`, `transition`, `wrap`, `template`, `template_child` or `doc`."@,
            ErrorKind::AttributeArgument => "Expected the attribute's argument."@,
            ErrorKind::RenameLocal => "When using the `local`, `local_ref` or `template_child` attributes you cannot rename the existing local variable."@,
            ErrorKind::NameTwice => "Widget name is specified more than once (attribute, assignment or local attribute)."@,
            ErrorKind::LocalIdent => "Expected identifier due to the `local`, `local_ref` or `template_child` attribute."@,
            ErrorKind::TemplateChild => "You can't use a template child if the parent is not a template."@,
            ErrorKind::ContainerWrapper => "Can't use wrapper types in container assignment."@,
            ErrorKind::NameConflict => "A widget of this name is already declared in this block."@,
            ErrorKind::ExpectedPath => "expected a path"@,
            ErrorKind::ExpectedIdent => "expected identifier"@,
            ErrorKind::ExpectedExpr => "expected expression"@,
            ErrorKind::ExpectedPattern => "expected pattern"@,
            ErrorKind::ExpectedBraces => "expected curly braces"@,
            ErrorKind::ExpectedComma => "expected `,`"@,
            ErrorKind::ExpectedColon => "expected `:`"@,
            ErrorKind::ExpectedFatArrow => "expected `=>`"@,
            ErrorKind::ExpectedAssign => "expected `:`, `=` or `=>`"@,
            ErrorKind::ExpectedConditional => "expected `if` or `match`"@,
            ErrorKind::ExpectedString => "expected string literal"@,
            ErrorKind::UnexpectedToken => "unexpected token"@,
            ErrorKind::PropertyName => "expected an identifier or a path as property name"@,
            ErrorKind::DuplicateViewMacro => "duplicate view macro"@,
            ErrorKind::DuplicateAdditionalFields => "duplicate additional_fields macro"@,
            ErrorKind::DuplicateMenuMacro => "duplicate menu macro"@,
            ErrorKind::DuplicateInitWidgets => "duplicate init_widgets function"@,
            ErrorKind::RootTypeDefined => "`Root` type is defined by `view!` macro"@,
            ErrorKind::RootName => "unable to determine root name"@,
            ErrorKind::SenderName => "unable to determine sender name"@,
            ErrorKind::ModelName => "unable to determine model name"@,
            ErrorKind::DuplicatePreView => "duplicate pre_view function"@,
            ErrorKind::DuplicatePostView => "duplicate post_view function"@,
            ErrorKind::InjectionPoint => "expected an injection point for the view macro. Try using `let widgets = view_output!();`"@,
            ErrorKind::WidgetsType => "no `Widgets` type found and the type if `Self` in not a path. Please use a path for `Self` or use `type Widgets = WidgetsName;` to name the widgets type."@,
            ErrorKind::AdditionalFields => "expected named fields"@,
            ErrorKind::ExpectedMenuEntry => "expected a menu entry, `section!` or `custom`"@,
        }
    }

    /// The text that the user is shown.
    pub fn message(self) -> (text: String)
        ensures
            text@ == self.spec_message(),
    {
        let text = match self {
            ErrorKind::AttributeTwice => "Cannot use the same attribute twice.",
            ErrorKind::WidgetAttribute => "Widgets can only have docs and `local`, `local_ref`, `wrap`, `name`, `template`, `template_child` or `root` as attribute.",
            ErrorKind::ConditionalAttribute => "Conditional widgets can only have docs and `name`, `transition` or `wrap` as attribute.",
            ErrorKind::PropertyAttribute => "Assignments can only have `watch` or `track` as attribute.",
            ErrorKind::UnknownAttribute => "Expected `local`, `local_ref`, `root`, `iterate`, `watch`, `track`, `name`, `transition`, `wrap`, `template`, `template_child` or `doc`.",
            ErrorKind::AttributeArgument => "Expected the attribute's argument.",
            ErrorKind::RenameLocal => "When using the `local`, `local_ref` or `template_child` attributes you cannot rename the existing local variable.",
            ErrorKind::NameTwice => "Widget name is specified more than once (attribute, assignment or local attribute).",
            ErrorKind::LocalIdent => "Expected identifier due to the `local`, `local_ref` or `template_child` attribute.",
            ErrorKind::TemplateChild => "You can't use a template child if the parent is not a template.",
            ErrorKind::ContainerWrapper => "Can't use wrapper types in container assignment.",
            ErrorKind::NameConflict => "A widget of this name is already declared in this block.",
            ErrorKind::ExpectedPath => "expected a path",
            ErrorKind::ExpectedIdent => "expected identifier",
            ErrorKind::ExpectedExpr => "expected expression",
            ErrorKind::ExpectedPattern => "expected pattern",
            ErrorKind::ExpectedBraces => "expected curly braces",
            ErrorKind::ExpectedComma => "expected `,`",
            ErrorKind::ExpectedColon => "expected `:`",
            ErrorKind::ExpectedFatArrow => "expected `=>`",
            ErrorKind::ExpectedAssign => "expected `:`, `=` or `=>`",
            ErrorKind::ExpectedConditional => "expected `if` or `match`",
            ErrorKind::ExpectedString => "expected string literal",
            ErrorKind::UnexpectedToken => "unexpected token",
            ErrorKind::PropertyName => "expected an identifier or a path as property name",
            ErrorKind::DuplicateViewMacro => "duplicate view macro",
            ErrorKind::DuplicateAdditionalFields => "duplicate additional_fields macro",
            ErrorKind::DuplicateMenuMacro => "duplicate menu macro",
            ErrorKind::DuplicateInitWidgets => "duplicate init_widgets function",
            ErrorKind::RootTypeDefined => "`Root` type is defined by `view!` macro",
            ErrorKind::RootName => "unable to determine root name",
            ErrorKind::SenderName => "unable to determine sender name",
            ErrorKind::ModelName => "unable to determine model name",
            ErrorKind::DuplicatePreView => "duplicate pre_view function",
            ErrorKind::DuplicatePostView => "duplicate post_view function",
            ErrorKind::InjectionPoint => "expected an injection point for the view macro. Try using `let widgets = view_output!();`",
            ErrorKind::WidgetsType => "no `Widgets` type found and the type if `Self` in not a path. Please use a path for `Self` or use `type Widgets = WidgetsName;` to name the widgets type.",
            ErrorKind::AdditionalFields => "expected named fields",
            ErrorKind::ExpectedMenuEntry => "expected a menu entry, `section!` or `custom`",
        };
        String::from_str(text)
    }
}

/// The tokens of `::core::compile_error! { "message" }`, all with one span.
pub open spec fn failing_tokens(message: Seq<char>, span: usize) -> Seq<TokenView> {
    seq![
        punct_view(':', true, span),
        punct_view(':', false, span),
        ident_view("core"@, span),
        punct_view(':', true, span),
        punct_view(':', false, span),
        ident_view("compile_error"@, span),
        punct_view('!', false, span),
        group_view(Delimiter::Brace, seq![literal_view(quoted(message), span)], span),
    ]
}

/// `text` between double quotes.
pub open spec fn quoted(text: Seq<char>) -> Seq<char> {
    (seq!['"'] + text).push('"')
}

impl ParseError {
    pub fn new(kind: ErrorKind, span: usize) -> (e: ParseError)
        ensures
            e == (ParseError { kind, span }),
    {
        ParseError { kind, span }
    }

    /// The error as code that fails to compile with the error's message.
    pub fn to_failing_code(&self) -> (out: Vec<Token>)
        ensures
            tokens_view(out@) == failing_tokens(self.kind.spec_message(), self.span),
    {
        failing_code(self.kind.message().as_str(), self.span)
    }
}

/// Code that fails to compile with `message`, spanned at `span`.
pub fn failing_code(message: &str, span: usize) -> (out: Vec<Token>)
    ensures
        tokens_view(out@) == failing_tokens(message@, span),
{
    broadcast use group_token_views;

    let mut text = String::from_str("\"");
    text.append(message);
    text.append("\"");
    proof {
        reveal_strlit("\"");
        assert(text@ =~= quoted(message@));
    }
    let mut inner: Vec<Token> = Vec::new();
    inner.push(Token::literal(text.as_str(), span));
    proof {
        assert(tokens_view(inner@) =~= seq![literal_view(quoted(message@), span)]);
    }
    let mut out: Vec<Token> = Vec::new();
    out.push(Token::punct(':', true, span));
    out.push(Token::punct(':', false, span));
    out.push(Token::ident("core", span));
    out.push(Token::punct(':', true, span));
    out.push(Token::punct(':', false, span));
    out.push(Token::ident("compile_error", span));
    out.push(Token::punct('!', false, span));
    out.push(Token::group(Delimiter::Brace, inner, span));
    proof {
        assert(tokens_view(out@) =~= failing_tokens(message@, span));
    }
    out
}

} // verus!
