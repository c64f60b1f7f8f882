//! Warp Drive objects as the local-control handlers see them.
use crate::text::str_eq;
use vstd::prelude::*;

verus! {

#[derive(Clone, Copy, PartialEq, Eq, Structural, Debug)]
pub enum JsonObjectType {
    EnvVarCollection,
    AIFact,
    MCPServer,
    TemplatableMCPServer,
    AIRule,
    Preference,
}

#[derive(Clone, Copy, PartialEq, Eq, Structural, Debug)]
pub enum GenericStringObjectFormat {
    Json(JsonObjectType),
}

/// The kind of a Warp Drive object.
#[derive(Clone, Copy, PartialEq, Eq, Structural, Debug)]
pub enum ObjectType {
    Notebook,
    Workflow,
    Folder,
    GenericStringObject(GenericStringObjectFormat),
}

/// How an object type reads in messages.
pub open spec fn object_type_display(t: ObjectType) -> Seq<char> {
    match t {
        ObjectType::Notebook => "notebook"@,
        ObjectType::Workflow => "workflow"@,
        ObjectType::Folder => "folder"@,
        ObjectType::GenericStringObject(GenericStringObjectFormat::Json(j)) => match j {
            JsonObjectType::EnvVarCollection => "env var collection"@,
            JsonObjectType::AIFact => "AI fact"@,
            JsonObjectType::MCPServer => "MCP server"@,
            JsonObjectType::TemplatableMCPServer => "templatable MCP server"@,
            JsonObjectType::AIRule => "AI rule"@,
            JsonObjectType::Preference => "preference"@,
        },
    }
}

impl ObjectType {
    pub fn display_name(&self) -> (s: &'static str)
        ensures
            s@ == object_type_display(*self),
    {
        match self {
            ObjectType::Notebook => "notebook",
            ObjectType::Workflow => "workflow",
            ObjectType::Folder => "folder",
            ObjectType::GenericStringObject(GenericStringObjectFormat::Json(j)) => match j {
                JsonObjectType::EnvVarCollection => "env var collection",
                JsonObjectType::AIFact => "AI fact",
                JsonObjectType::MCPServer => "MCP server",
                JsonObjectType::TemplatableMCPServer => "templatable MCP server",
                JsonObjectType::AIRule => "AI rule",
                JsonObjectType::Preference => "preference",
            },
        }
    }
}

/// The id under which an object is synced: assigned by the server, or a
/// client-side id for objects not yet saved.
#[derive(PartialEq, Eq, Debug)]
pub enum SyncId {
    ServerId(String),
    ClientId(String),
}

impl Clone for SyncId {
    fn clone(&self) -> (r: SyncId)
        ensures
            r == *self,
    {
        match self {
            SyncId::ServerId(s) => SyncId::ServerId(s.clone()),
            SyncId::ClientId(s) => SyncId::ClientId(s.clone()),
        }
    }
}

/// An object's kind together with its sync id.
#[derive(Clone, PartialEq, Eq, Debug)]
pub enum CloudObjectTypeAndId {
    Notebook(SyncId),
    Workflow(SyncId),
    Folder(SyncId),
    GenericStringObject { object_type: GenericStringObjectFormat, id: SyncId },
}

pub open spec fn type_and_id_of(id: SyncId, t: ObjectType) -> CloudObjectTypeAndId {
    match t {
        ObjectType::Notebook => CloudObjectTypeAndId::Notebook(id),
        ObjectType::Workflow => CloudObjectTypeAndId::Workflow(id),
        ObjectType::Folder => CloudObjectTypeAndId::Folder(id),
        ObjectType::GenericStringObject(f) => CloudObjectTypeAndId::GenericStringObject { object_type: f, id },
    }
}

impl CloudObjectTypeAndId {
    pub open spec fn kind(&self) -> ObjectType {
        match self {
            CloudObjectTypeAndId::Notebook(_) => ObjectType::Notebook,
            CloudObjectTypeAndId::Workflow(_) => ObjectType::Workflow,
            CloudObjectTypeAndId::Folder(_) => ObjectType::Folder,
            CloudObjectTypeAndId::GenericStringObject { object_type, .. } => ObjectType::GenericStringObject(*object_type),
        }
    }

    pub open spec fn id(&self) -> SyncId {
        match self {
            CloudObjectTypeAndId::Notebook(id) => *id,
            CloudObjectTypeAndId::Workflow(id) => *id,
            CloudObjectTypeAndId::Folder(id) => *id,
            CloudObjectTypeAndId::GenericStringObject { id, .. } => *id,
        }
    }

    pub fn object_type(&self) -> (t: ObjectType)
        ensures
            t == self.kind(),
    {
        match self {
            CloudObjectTypeAndId::Notebook(_) => ObjectType::Notebook,
            CloudObjectTypeAndId::Workflow(_) => ObjectType::Workflow,
            CloudObjectTypeAndId::Folder(_) => ObjectType::Folder,
            CloudObjectTypeAndId::GenericStringObject { object_type, .. } => ObjectType::GenericStringObject(*object_type),
        }
    }

    pub fn sync_id(&self) -> (id: SyncId)
        ensures
            id == self.id(),
    {
        match self {
            CloudObjectTypeAndId::Notebook(id) => id.clone(),
            CloudObjectTypeAndId::Workflow(id) => id.clone(),
            CloudObjectTypeAndId::Folder(id) => id.clone(),
            CloudObjectTypeAndId::GenericStringObject { id, .. } => id.clone(),
        }
    }

    pub fn from_id_and_type(id: SyncId, t: ObjectType) -> (r: CloudObjectTypeAndId)
        ensures
            r == type_and_id_of(id, t),
    {
        match t {
            ObjectType::Notebook => CloudObjectTypeAndId::Notebook(id),
            ObjectType::Workflow => CloudObjectTypeAndId::Workflow(id),
            ObjectType::Folder => CloudObjectTypeAndId::Folder(id),
            ObjectType::GenericStringObject(f) => CloudObjectTypeAndId::GenericStringObject { object_type: f, id },
        }
    }

    pub fn from_generic_string_object(format: GenericStringObjectFormat, id: SyncId) -> (r: CloudObjectTypeAndId)
        ensures
            r == (CloudObjectTypeAndId::GenericStringObject { object_type: format, id }),
    {
        CloudObjectTypeAndId::GenericStringObject { object_type: format, id }
    }
}

/// What the handlers can read of an object's model.
#[derive(Clone, PartialEq, Eq, Debug)]
pub enum CloudObjectModel {
    Workflow { is_agent_mode_workflow: bool, data_json: String },
    Notebook { title: String, data: String, ai_document_id: Option<String>, conversation_id: Option<String> },
    Folder { name: String, is_open: bool, is_warp_pack: bool },
    EnvVarCollection { string_model_json: String },
    /// A model of a kind whose content this surface does not read.
    Opaque,
}

/// One Warp Drive object: its uid, the name it is shown under, its declared
/// type, its sync id, and its model.
#[derive(Clone, PartialEq, Eq, Debug)]
pub struct CloudObject {
    pub uid: String,
    pub display_name: String,
    pub object_type: ObjectType,
    pub sync_id: SyncId,
    pub model: CloudObjectModel,
}

impl CloudObject {
    pub fn cloud_object_type_and_id(&self) -> (r: CloudObjectTypeAndId)
        ensures
            r == type_and_id_of(self.sync_id, self.object_type),
    {
        CloudObjectTypeAndId::from_id_and_type(self.sync_id.clone(), self.object_type)
    }
}

/// The loaded Warp Drive objects.
#[derive(Clone, PartialEq, Eq, Debug)]
pub struct CloudModel {
    pub objects: Vec<CloudObject>,
}

impl CloudModel {
    /// Uids identify objects.
    pub open spec fn well_formed(&self) -> bool {
        forall|i: int, j: int|
            0 <= i < j < self.objects@.len() ==> (#[trigger] self.objects@[i]).uid@ != (#[trigger] self.objects@[j]).uid@
    }

    pub open spec fn has_uid(&self, uid: Seq<char>) -> bool {
        exists|i: int| 0 <= i < self.objects@.len() && (#[trigger] self.objects@[i]).uid@ == uid
    }

    /// The object with this uid, if it is loaded (the first one, should
    /// uids repeat).
    pub fn get_by_uid(&self, uid: &str) -> (r: Option<&CloudObject>)
        ensures
            match r {
                Some(o) => first_with_uid(self.objects@, uid@) == Some(*o),
                None => first_with_uid(self.objects@, uid@) is None,
            },
    {
        let mut i: usize = 0;
        assert(self.objects@.skip(0) =~= self.objects@);
        while i < self.objects.len()
            invariant
                i <= self.objects@.len(),
                first_with_uid(self.objects@, uid@) == first_with_uid(self.objects@.skip(i as int), uid@),
            decreases self.objects@.len() - i,
        {
            proof {
                assert(self.objects@.skip(i as int).drop_first() =~= self.objects@.skip(i + 1));
            }
            if str_eq(self.objects[i].uid.as_str(), uid) {
                return Some(&self.objects[i]);
            }
            i = i + 1;
        }
        None
    }
}

/// The first object in `objects` with this uid.
pub open spec fn first_with_uid(objects: Seq<CloudObject>, uid: Seq<char>) -> Option<CloudObject>
    decreases objects.len(),
{
    if objects.len() == 0 {
        None
    } else if objects[0].uid@ == uid {
        Some(objects[0])
    } else {
        first_with_uid(objects.drop_first(), uid)
    }
}

} // verus!
