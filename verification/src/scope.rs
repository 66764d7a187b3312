use vstd::prelude::*;
use crate::attr::KeyValue;

verus! {

/// What an [`InstrumentationScope`] says, field by field, with text taken
/// as character sequences.
pub ghost struct ScopeModel {
    /// The instrumented library's name.
    pub name: Seq<char>,
    /// The instrumented library's version, if stated.
    pub version: Option<Seq<char>>,
    /// The schema URL the telemetry follows, if stated.
    pub schema_url: Option<Seq<char>>,
    /// Attributes describing the scope.
    pub attributes: Seq<KeyValue>,
}

/// Identifies the library or component producing telemetry: a name with an
/// optional version, schema URL and attributes.  Immutable once built; two
/// scopes are the same scope exactly when their contents are equal.
#[derive(Debug, Clone)]
pub struct InstrumentationScope {
    name: String,
    version: Option<String>,
    schema_url: Option<String>,
    attributes: Vec<KeyValue>,
}

impl View for InstrumentationScope {
    type V = ScopeModel;

    closed spec fn view(&self) -> ScopeModel {
        ScopeModel {
            name: self.name@,
            version: match self.version {
                Some(v) => Some(v@),
                None => None,
            },
            schema_url: match self.schema_url {
                Some(s) => Some(s@),
                None => None,
            },
            attributes: self.attributes@,
        }
    }
}

impl InstrumentationScope {
    /// Starts building a scope with the given name and nothing else.
    pub fn builder(name: String) -> (r: InstrumentationScopeBuilder)
        ensures
            r.spec_scope() == (ScopeModel {
                name: name@,
                version: None::<Seq<char>>,
                schema_url: None::<Seq<char>>,
                attributes: Seq::<KeyValue>::empty(),
            }),
    {
        InstrumentationScopeBuilder {
            scope: InstrumentationScope {
                name,
                version: None,
                schema_url: None,
                attributes: Vec::new(),
            },
        }
    }

    /// The scope's name.
    pub fn name(&self) -> (r: &String)
        ensures
            r@ == self@.name,
    {
        &self.name
    }

    /// The scope's version, if stated.
    pub fn version(&self) -> (r: Option<&String>)
        ensures
            match r {
                Some(v) => self@.version == Some(v@),
                None => self@.version is None,
            },
    {
        match &self.version {
            Some(v) => Some(v),
            None => None,
        }
    }

    /// The scope's schema URL, if stated.
    pub fn schema_url(&self) -> (r: Option<&String>)
        ensures
            match r {
                Some(s) => self@.schema_url == Some(s@),
                None => self@.schema_url is None,
            },
    {
        match &self.schema_url {
            Some(s) => Some(s),
            None => None,
        }
    }

    /// The scope's attributes.
    pub fn attributes(&self) -> (r: &Vec<KeyValue>)
        ensures
            r@ == self@.attributes,
    {
        &self.attributes
    }
}

/// Builds an [`InstrumentationScope`]: start from a name, state the
/// optional parts, then `build`.
#[derive(Debug)]
pub struct InstrumentationScopeBuilder {
    scope: InstrumentationScope,
}

impl InstrumentationScopeBuilder {
    /// States the instrumented library's version.
    pub fn with_version(self, version: String) -> (r: InstrumentationScopeBuilder)
        ensures
            r.spec_scope() == (ScopeModel { version: Some(version@), ..self.spec_scope() }),
    {
        InstrumentationScopeBuilder {
            scope: InstrumentationScope { version: Some(version), ..self.scope },
        }
    }

    /// States the schema URL the telemetry follows.
    pub fn with_schema_url(self, schema_url: String) -> (r: InstrumentationScopeBuilder)
        ensures
            r.spec_scope() == (ScopeModel { schema_url: Some(schema_url@), ..self.spec_scope() }),
    {
        InstrumentationScopeBuilder {
            scope: InstrumentationScope { schema_url: Some(schema_url), ..self.scope },
        }
    }

    /// States the scope's attributes, replacing any stated before.
    pub fn with_attributes(self, attributes: Vec<KeyValue>) -> (r: InstrumentationScopeBuilder)
        ensures
            r.spec_scope() == (ScopeModel { attributes: attributes@, ..self.spec_scope() }),
    {
        InstrumentationScopeBuilder {
            scope: InstrumentationScope { attributes, ..self.scope },
        }
    }

    /// The finished scope, holding exactly what was stated.
    pub fn build(self) -> (r: InstrumentationScope)
        ensures
            r@ == self.spec_scope(),
    {
        self.scope
    }
}

/// What the builder holds so far.
impl InstrumentationScopeBuilder {
    /// The scope as stated so far.
    pub closed spec fn spec_scope(&self) -> ScopeModel {
        self.scope@
    }
}

} // verus!
