use grammar::components::direct;
use grammar::pipeline;

#[derive(Debug, Clone, Copy, PartialEq, Eq, Hash, PartialOrd, Ord)]
pub struct InputElement(pub u8);
impl pipeline::InputElement for InputElement {}

#[derive(Debug, Clone, Copy, PartialEq, Eq, Hash, PartialOrd, Ord)]
pub struct Token(pub usize);
impl pipeline::Sourced for Token {
    type Source = InputElement;
}
impl direct::Token for Token {
    type Source = InputElement;
}

#[derive(Debug, Clone)]
pub struct InputSource;
impl pipeline::CollectiveSource<InputElement> for InputSource {}

#[derive(Debug, Clone)]
pub struct SourcedToken {
    pub source: InputSource,
    pub token: Token,
    pub extent: pipeline::Extent,
}

impl pipeline::Sourced for SourcedToken {
    type Source = InputElement;
}
impl pipeline::SourceOrigin for SourcedToken {
    type CS = InputSource;
    fn original_source(&self) -> Self::CS {
        self.source.clone()
    }
}
impl pipeline::CoversExtent for SourcedToken {
    fn covers_extent(&self) -> pipeline::Extent {
        self.extent.clone()
    }
}
impl pipeline::SourcedToken for SourcedToken {
    type Tok = Token;
    fn token(&self) -> &Token {
        &self.token
    }
}

#[test]
fn lib_it_works() {
    let _el = InputElement(0);
    let tok = Token(0);
    let st = SourcedToken {
        source: InputSource,
        token: tok,
        extent: pipeline::Extent(0..1),
    };
    let result = 2 + 2;
    assert_eq!(result, 4);
    let _ = st;
}

#[test]
fn extent_clone_keeps_range() {
    let st = SourcedToken { source: InputSource, token: Token(3), extent: pipeline::Extent(2..5) };
    let e = pipeline::CoversExtent::covers_extent(&st);
    assert_eq!(e.0, 2..5);
    assert_eq!(pipeline::SourcedToken::token(&st), &Token(3));
}
