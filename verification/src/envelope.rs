//! The event envelope: the routing attributes of an event and its payload.
//!
//! An envelope has no behaviour beyond reading and writing its attributes.
//! The attributes are plain strings and the payload is opaque: whether a
//! `source` names a known step is for the resolver to say, not the envelope.

use vstd::prelude::*;

verus! {

/// An envelope as mathematical values.
pub struct EnvelopeView {
    pub id: Seq<char>,
    pub source: Seq<char>,
    pub ty: Seq<char>,
    pub datacontenttype: Option<Seq<char>>,
    pub data: Option<Seq<u8>>,
}

impl EnvelopeView {
    /// This envelope with another `id`.
    pub open spec fn with_id(self, id: Seq<char>) -> EnvelopeView {
        EnvelopeView { id, ..self }
    }

    /// This envelope with another `source`.
    pub open spec fn with_source(self, source: Seq<char>) -> EnvelopeView {
        EnvelopeView { source, ..self }
    }

    /// This envelope with another `type`.
    pub open spec fn with_ty(self, ty: Seq<char>) -> EnvelopeView {
        EnvelopeView { ty, ..self }
    }

    /// This envelope with another payload.
    pub open spec fn with_payload(self, datacontenttype: Seq<char>, data: Seq<u8>)
        -> EnvelopeView {
        EnvelopeView { datacontenttype: Some(datacontenttype), data: Some(data), ..self }
    }

    /// Whether two envelopes carry the same payload.
    pub open spec fn same_payload(self, other: EnvelopeView) -> bool {
        self.datacontenttype == other.datacontenttype && self.data == other.data
    }
}

/// An event on its way through the workflow.
#[derive(Debug, PartialEq, Eq)]
pub struct Envelope {
    /// Identifier of this copy of the event; rewritten on every fan-out copy.
    pub id: String,
    /// The step that produced the event, which is its position in the workflow.
    pub source: String,
    /// The destination that a successor of the event is posted to.
    pub ty: String,
    /// Media type of the payload.
    pub datacontenttype: Option<String>,
    /// The payload, which the router never looks into.
    pub data: Option<Vec<u8>>,
}

impl View for Envelope {
    type V = EnvelopeView;

    open spec fn view(&self) -> EnvelopeView {
        EnvelopeView {
            id: self.id@,
            source: self.source@,
            ty: self.ty@,
            datacontenttype: match self.datacontenttype {
                Some(ct) => Some(ct@),
                None => None,
            },
            data: match self.data {
                Some(bytes) => Some(bytes@),
                None => None,
            },
        }
    }
}

impl Clone for Envelope {
    fn clone(&self) -> (copy: Envelope)
        ensures
            copy@ == self@,
    {
        let datacontenttype = match &self.datacontenttype {
            Some(ct) => Some(ct.clone()),
            None => None,
        };
        let data = match &self.data {
            Some(bytes) => Some(bytes.clone()),
            None => None,
        };
        Envelope {
            id: self.id.clone(),
            source: self.source.clone(),
            ty: self.ty.clone(),
            datacontenttype,
            data,
        }
    }
}

impl Envelope {
    /// An envelope with the given routing attributes and no payload.
    pub fn new(id: String, source: String, ty: String) -> (envelope: Envelope)
        ensures
            envelope@ == (EnvelopeView {
                id: id@,
                source: source@,
                ty: ty@,
                datacontenttype: None,
                data: None,
            }),
    {
        Envelope { id, source, ty, datacontenttype: None, data: None }
    }

    /// The identifier of this copy of the event.
    pub fn id(&self) -> (id: &str)
        ensures
            id@ == self@.id,
    {
        self.id.as_str()
    }

    /// The step that produced the event.
    pub fn source(&self) -> (source: &str)
        ensures
            source@ == self@.source,
    {
        self.source.as_str()
    }

    /// The destination that a successor of the event is posted to.
    pub fn ty(&self) -> (ty: &str)
        ensures
            ty@ == self@.ty,
    {
        self.ty.as_str()
    }

    /// The media type of the payload, if one is given.
    pub fn datacontenttype(&self) -> (datacontenttype: Option<&str>)
        ensures
            match datacontenttype {
                Some(ct) => self@.datacontenttype == Some(ct@),
                None => self@.datacontenttype is None,
            },
    {
        match &self.datacontenttype {
            Some(ct) => Some(ct.as_str()),
            None => None,
        }
    }

    /// The payload, if there is one.
    pub fn data(&self) -> (data: Option<&Vec<u8>>)
        ensures
            match data {
                Some(bytes) => self@.data == Some(bytes@),
                None => self@.data is None,
            },
    {
        match &self.data {
            Some(bytes) => Some(bytes),
            None => None,
        }
    }

    /// Gives the envelope a payload of the given media type, in place of any
    /// it had.
    pub fn set_data(&mut self, datacontenttype: String, data: Vec<u8>)
        ensures
            final(self)@ == old(self)@.with_payload(datacontenttype@, data@),
    {
        self.datacontenttype = Some(datacontenttype);
        self.data = Some(data);
    }

    /// Writes `id` and hands back the identifier it replaces.
    pub fn set_id(&mut self, id: String) -> (previous: String)
        ensures
            final(self)@ == old(self)@.with_id(id@),
            previous@ == old(self)@.id,
    {
        let mut previous = id;
        core::mem::swap(&mut self.id, &mut previous);
        previous
    }

    /// Writes `source`, which moves the event to another position in the
    /// workflow, and hands back the source it replaces.
    pub fn set_source(&mut self, source: String) -> (previous: String)
        ensures
            final(self)@ == old(self)@.with_source(source@),
            previous@ == old(self)@.source,
    {
        let mut previous = source;
        core::mem::swap(&mut self.source, &mut previous);
        previous
    }

    /// Writes `type` and hands back the destination it replaces.
    pub fn set_type(&mut self, ty: String) -> (previous: String)
        ensures
            final(self)@ == old(self)@.with_ty(ty@),
            previous@ == old(self)@.ty,
    {
        let mut previous = ty;
        core::mem::swap(&mut self.ty, &mut previous);
        previous
    }
}

} // verus!
