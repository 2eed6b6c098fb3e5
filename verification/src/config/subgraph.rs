//! Configuration of one subgraph: where it is routed and where its schema
//! comes from.
use vstd::prelude::*;

verus! {

/// Where the schema of a subgraph comes from.
#[derive(Debug)]
pub enum SchemaSource {
    /// A schema file, by its path.
    File { file: String },
    /// Introspection of a running subgraph, with optional headers (name and
    /// value pairs) to send along.
    SubgraphIntrospection {
        subgraph_url: String,
        introspection_headers: Option<Vec<(String, String)>>,
    },
    /// A subgraph of a graph in the registry.
    Subgraph { graphref: String, subgraph: String },
    /// Schema text given inline.
    Sdl { sdl: String },
}

/// Configuration of one subgraph.
#[derive(Debug)]
pub struct SubgraphConfig {
    /// The URL the router sends this subgraph's requests to.
    pub routing_url: Option<String>,
    /// Where the subgraph's schema comes from.
    pub schema: SchemaSource,
}

/// A schema source as plain values.
pub enum SchemaSourceView {
    File { file: Seq<char> },
    SubgraphIntrospection {
        subgraph_url: Seq<char>,
        introspection_headers: Option<Seq<(Seq<char>, Seq<char>)>>,
    },
    Subgraph { graphref: Seq<char>, subgraph: Seq<char> },
    Sdl { sdl: Seq<char> },
}

/// The texts of a list of header pairs.
pub open spec fn header_texts(h: Seq<(String, String)>) -> Seq<(Seq<char>, Seq<char>)> {
    h.map_values(|p: (String, String)| (p.0@, p.1@))
}

impl View for SchemaSource {
    type V = SchemaSourceView;

    open spec fn view(&self) -> SchemaSourceView {
        match self {
            SchemaSource::File { file } => SchemaSourceView::File { file: file@ },
            SchemaSource::SubgraphIntrospection { subgraph_url, introspection_headers } =>
                SchemaSourceView::SubgraphIntrospection {
                subgraph_url: subgraph_url@,
                introspection_headers: match introspection_headers {
                    Some(h) => Some(header_texts(h@)),
                    None => None,
                },
            },
            SchemaSource::Subgraph { graphref, subgraph } => SchemaSourceView::Subgraph {
                graphref: graphref@,
                subgraph: subgraph@,
            },
            SchemaSource::Sdl { sdl } => SchemaSourceView::Sdl { sdl: sdl@ },
        }
    }
}

/// A subgraph configuration as plain values.
pub struct SubgraphConfigView {
    pub routing_url: Option<Seq<char>>,
    pub schema: SchemaSourceView,
}

/// The text of an optional string.
pub open spec fn opt_text(t: Option<String>) -> Option<Seq<char>> {
    match t {
        Some(s) => Some(s@),
        None => None,
    }
}

impl View for SubgraphConfig {
    type V = SubgraphConfigView;

    open spec fn view(&self) -> SubgraphConfigView {
        SubgraphConfigView { routing_url: opt_text(self.routing_url), schema: self.schema@ }
    }
}

/// A copy of a list of header pairs.
fn duplicate_headers(headers: &Vec<(String, String)>) -> (r: Vec<(String, String)>)
    ensures
        r@ == headers@,
{
    let mut r: Vec<(String, String)> = Vec::new();
    let mut i: usize = 0;
    while i < headers.len()
        invariant
            i <= headers.len(),
            r@ == headers@.subrange(0, i as int),
        decreases headers.len() - i,
    {
        let pair = (headers[i].0.clone(), headers[i].1.clone());
        r.push(pair);
        i = i + 1;
        assert(r@ =~= headers@.subrange(0, i as int));
    }
    assert(r@ =~= headers@);
    r
}

/// A copy of an optional text.
pub fn duplicate_text(t: &Option<String>) -> (r: Option<String>)
    ensures
        r == *t,
{
    match t {
        Some(s) => Some(s.clone()),
        None => None,
    }
}

impl SchemaSource {
    /// A copy of the schema source.
    pub fn duplicate(&self) -> (r: SchemaSource)
        ensures
            r@ == self@,
    {
        match self {
            SchemaSource::File { file } => SchemaSource::File { file: file.clone() },
            SchemaSource::SubgraphIntrospection { subgraph_url, introspection_headers } => {
                let headers = match introspection_headers {
                    Some(h) => Some(duplicate_headers(h)),
                    None => None,
                };
                proof {
                    if introspection_headers.is_some() {
                        assert(headers.unwrap()@ == introspection_headers.unwrap()@);
                        assert(header_texts(headers.unwrap()@) == header_texts(
                            introspection_headers.unwrap()@,
                        ));
                    }
                }
                SchemaSource::SubgraphIntrospection {
                    subgraph_url: subgraph_url.clone(),
                    introspection_headers: headers,
                }
            },
            SchemaSource::Subgraph { graphref, subgraph } => SchemaSource::Subgraph {
                graphref: graphref.clone(),
                subgraph: subgraph.clone(),
            },
            SchemaSource::Sdl { sdl } => SchemaSource::Sdl { sdl: sdl.clone() },
        }
    }
}

/// The inline schema text of a subgraph configuration, if it has one.
pub open spec fn config_sdl(c: SubgraphConfigView) -> Option<Seq<char>> {
    match c.schema {
        SchemaSourceView::Sdl { sdl } => Some(sdl),
        _ => None,
    }
}

impl SubgraphConfig {
    /// The inline schema text, if the configuration gives one.
    pub fn get_sdl(&self) -> (r: Option<String>)
        ensures
            opt_text(r) == config_sdl(self@),
            r is Some <==> (self@.schema is Sdl),
            self@.schema matches SchemaSourceView::Sdl { sdl } ==> opt_text(r) == Some(sdl),
    {
        if let SchemaSource::Sdl { sdl } = &self.schema {
            Some(sdl.clone())
        } else {
            None
        }
    }

    /// A copy of the configuration.
    pub fn duplicate(&self) -> (r: SubgraphConfig)
        ensures
            r@ == self@,
    {
        SubgraphConfig {
            routing_url: duplicate_text(&self.routing_url),
            schema: self.schema.duplicate(),
        }
    }
}

} // verus!
