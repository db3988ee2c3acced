//! The payload-schema registry: advisory metadata describing, per task type,
//! the payload that its handler expects. Nothing in task creation or dispatch
//! consults it.

use vstd::prelude::*;

use crate::table::KeyedTable;

verus! {

/// The kind of value a payload field holds.
#[derive(Debug, Clone, Copy, PartialEq, Eq, Structural)]
pub enum FieldType {
    String,
    Number,
    Boolean,
    Object,
}

/// One documented field of a payload.
#[derive(Debug, Clone)]
pub struct PayloadField {
    pub field_type: FieldType,
    pub required: bool,
    pub description: Option<String>,
    pub example: Option<serde_json::Value>,
}

/// The documented payload of one task type: its fields by name.
#[derive(Debug, Clone)]
pub struct TaskPayloadSchema {
    pub task_type: String,
    pub description: String,
    pub fields: Vec<(String, PayloadField)>,
}

impl TaskPayloadSchema {
    /// No two fields share a name.
    pub open spec fn wf(&self) -> bool {
        forall|a: int, b: int| #![trigger self.fields@[a], self.fields@[b]]
            0 <= a < self.fields@.len() && 0 <= b < self.fields@.len() && a != b
                ==> self.fields@[a].0@ != self.fields@[b].0@
    }

    /// Whether no two fields share a name.
    pub fn has_distinct_fields(&self) -> (r: bool)
        ensures
            r == self.wf(),
    {
        let n = self.fields.len();
        let mut i: usize = 0;
        while i < n
            invariant
                n == self.fields@.len(),
                i <= n,
                forall|a: int, b: int| #![trigger self.fields@[a], self.fields@[b]]
                    0 <= a < i && 0 <= b < n && a != b ==> self.fields@[a].0@ != self.fields@[b].0@,
            decreases n - i,
        {
            let mut j: usize = 0;
            while j < n
                invariant
                    n == self.fields@.len(),
                    i < n,
                    j <= n,
                    forall|a: int, b: int| #![trigger self.fields@[a], self.fields@[b]]
                        0 <= a < i && 0 <= b < n && a != b ==> self.fields@[a].0@ != self.fields@[b].0@,
                    forall|b: int| #![trigger self.fields@[b]]
                        0 <= b < j && b != i ==> self.fields@[i as int].0@ != self.fields@[b].0@,
                decreases n - j,
            {
                if j != i && self.fields[i].0 == self.fields[j].0 {
                    return false;
                }
                j = j + 1;
            }
            i = i + 1;
        }
        true
    }
}

/// Schemas keyed by task type, at most one per type.
pub struct SchemaRegistry {
    table: KeyedTable<TaskPayloadSchema>,
}

impl View for SchemaRegistry {
    type V = Map<Seq<char>, TaskPayloadSchema>;

    closed spec fn view(&self) -> Map<Seq<char>, TaskPayloadSchema> {
        self.table@
    }
}

impl SchemaRegistry {
    /// The table is well formed and every stored schema names each field once.
    pub closed spec fn wf(&self) -> bool {
        &&& self.table.wf()
        &&& forall|k: Seq<char>| #[trigger] self.table@.contains_key(k) ==> self.table@[k].wf()
    }

    /// An empty registry.
    pub fn new() -> (r: SchemaRegistry)
        ensures
            r.wf(),
            r@ == Map::<Seq<char>, TaskPayloadSchema>::empty(),
    {
        SchemaRegistry { table: KeyedTable::new() }
    }

    /// Stores `schema` under its task type, replacing any schema stored there,
    /// and hands back what was stored.
    pub fn set(&mut self, schema: TaskPayloadSchema) -> (r: &TaskPayloadSchema)
        requires
            old(self).wf(),
            schema.wf(),
        ensures
            final(self).wf(),
            final(self)@ == old(self)@.insert(schema.task_type@, schema),
            *r == schema,
    {
        let key = schema.task_type.clone();
        self.table.upsert(key, schema)
    }

    /// The schema stored for `task_type`, or `None` where there is none.
    pub fn get(&self, task_type: &str) -> (r: Option<&TaskPayloadSchema>)
        requires
            self.wf(),
        ensures
            match r {
                Some(s) => self@.contains_key(task_type@) && *s == self@[task_type@] && s.wf(),
                None => !self@.contains_key(task_type@),
            },
    {
        self.table.get(task_type)
    }

    /// Every registered task type, each once.
    pub fn list_types(&self) -> (r: Vec<String>)
        requires
            self.wf(),
        ensures
            forall|k: Seq<char>|
                self@.contains_key(k) <==> exists|i: int| 0 <= i < r@.len() && #[trigger] r@[i]@ == k,
            forall|i: int, j: int|
                0 <= i < r@.len() && 0 <= j < r@.len() && i != j ==> #[trigger] r@[i]@
                    != #[trigger] r@[j]@,
    {
        self.table.keys()
    }
}

} // verus!
