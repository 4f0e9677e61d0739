//! Entity metadata: the table, scope, and field shapes that drive
//! mutation-type generation for the streaming client.

use vstd::prelude::*;

verus! {

/// Scope of an entity's mutations: which parent id routes them.
#[derive(Clone, Copy, PartialEq, Eq, Structural, Debug)]
pub enum Scope {
    Organization,
    Project,
    Issue,
    Comment,
}

/// One field of a mutation type.
pub struct FieldDef {
    pub name: String,
    pub field_type: String,
    pub is_optional: bool,
}

impl FieldDef {
    /// Field-for-field copy.
    pub fn dup(&self) -> (r: Self)
        ensures
            r == *self,
    {
        FieldDef {
            name: self.name.clone(),
            field_type: self.field_type.clone(),
            is_optional: self.is_optional,
        }
    }
}

/// Metadata of one entity: its name, table, mutation scope, and fields.
pub struct EntityDefinition {
    pub name: String,
    pub table: String,
    pub mutation_scope: Option<Scope>,
    pub fields: Vec<FieldDef>,
    pub ts_type_name: String,
}

/// Read access to entity metadata, for heterogeneous listings.
pub trait EntityExport {
    /// The entity's name.
    fn name(&self) -> String;

    /// The entity's table.
    fn table(&self) -> String;

    /// The scope of its mutations, if it has any.
    fn mutation_scope(&self) -> Option<Scope>;

    /// Its mutation fields.
    fn fields(&self) -> Vec<FieldDef>;

    /// The exported type name.
    fn ts_type_name(&self) -> String;
}

impl EntityExport for EntityDefinition {
    fn name(&self) -> String {
        self.name.clone()
    }

    fn table(&self) -> String {
        self.table.clone()
    }

    fn mutation_scope(&self) -> Option<Scope> {
        self.mutation_scope
    }

    fn fields(&self) -> Vec<FieldDef> {
        let mut out: Vec<FieldDef> = Vec::new();
        let n = self.fields.len();
        let mut k: usize = 0;
        while k < n
            invariant
                n == self.fields@.len(),
                0 <= k <= n,
                out@.len() == k,
                forall|i: int| 0 <= i < k ==> out@[i] == self.fields@[i],
            decreases n - k,
        {
            out.push(self.fields[k].dup());
            k += 1;
        }
        out
    }

    fn ts_type_name(&self) -> String {
        self.ts_type_name.clone()
    }
}

} // verus!
