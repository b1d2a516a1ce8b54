//! A catalog held in memory: namespaces, tables and, for each table, the
//! files that its current snapshot registers.
//!
//! Registration is append-only and goes by file identity, which is the path:
//! a file that is registered already is not registered again. A table's
//! snapshot identifier is the number of files it registers, so every
//! registration of a new file makes a new snapshot.

use vstd::prelude::*;
use crate::schema::{column_models, texts, ColumnModel, ColumnSpec};
use crate::sink::commit_protocol::{CatalogReply, CatalogRequest};
use crate::text::same_text;

verus! {

/// A reference to a written file.
#[derive(Debug)]
pub struct DataFile {
    /// The storage path. It is the file's identity.
    pub path: String,
    /// The length in bytes.
    pub len_bytes: i64,
    /// The number of rows.
    pub row_count: i64,
}

/// The mathematical content of a `DataFile`.
pub struct DataFileModel {
    pub path: Seq<char>,
    pub len_bytes: i64,
    pub row_count: i64,
}

impl View for DataFile {
    type V = DataFileModel;

    open spec fn view(&self) -> DataFileModel {
        DataFileModel { path: self.path@, len_bytes: self.len_bytes, row_count: self.row_count }
    }
}

/// The contents of a list of file references.
pub open spec fn file_models(files: Seq<DataFile>) -> Seq<DataFileModel> {
    Seq::new(files.len(), |i: int| files[i]@)
}

/// A table of the catalog.
pub struct TableModel {
    pub namespace: Seq<char>,
    pub name: Seq<char>,
    pub schema: Seq<ColumnModel>,
    /// The files of the current snapshot, in the order of their registration.
    pub files: Seq<DataFileModel>,
}

/// The state of a catalog.
pub struct CatalogModel {
    /// The namespaces, in the order of their creation.
    pub namespaces: Seq<Seq<char>>,
    /// The tables, in the order of their creation.
    pub tables: Seq<TableModel>,
}

/// The file at position `i` has the given path.
pub open spec fn file_matches(files: Seq<DataFileModel>, i: int, path: Seq<char>) -> bool {
    0 <= i < files.len() && files[i].path == path
}

/// A file of the given path is registered.
pub open spec fn has_file(files: Seq<DataFileModel>, path: Seq<char>) -> bool {
    exists|i: int| file_matches(files, i, path)
}

/// No two files share a path.
pub open spec fn files_distinct(files: Seq<DataFileModel>) -> bool {
    forall|i: int, j: int|
        0 <= i < j < files.len() ==> (#[trigger] files[i]).path != (#[trigger] files[j]).path
}

/// The files with one more registered: the union of what was there and the
/// new file.
pub open spec fn registered(files: Seq<DataFileModel>, file: DataFileModel) -> Seq<DataFileModel> {
    if has_file(files, file.path) {
        files
    } else {
        files.push(file)
    }
}

/// The snapshot identifier of a table with the given files.
pub open spec fn snapshot_of(files: Seq<DataFileModel>) -> u64 {
    files.len() as u64
}

impl CatalogModel {
    /// The catalog without namespaces and tables.
    pub open spec fn empty() -> CatalogModel {
        CatalogModel { namespaces: Seq::empty(), tables: Seq::empty() }
    }

    pub open spec fn has_namespace(self, namespace: Seq<char>) -> bool {
        self.namespaces.contains(namespace)
    }

    /// The table at position `i` is the one of the given name.
    pub open spec fn table_matches(self, i: int, namespace: Seq<char>, name: Seq<char>) -> bool {
        0 <= i < self.tables.len() && self.tables[i].namespace == namespace && self.tables[i].name
            == name
    }

    pub open spec fn has_table(self, namespace: Seq<char>, name: Seq<char>) -> bool {
        exists|i: int| self.table_matches(i, namespace, name)
    }

    /// The position of a table that exists.
    pub open spec fn table_index(self, namespace: Seq<char>, name: Seq<char>) -> int {
        choose|i: int| self.table_matches(i, namespace, name)
    }

    /// The files that a table registers; none where the table does not exist.
    pub open spec fn files_of(self, namespace: Seq<char>, name: Seq<char>) -> Seq<DataFileModel> {
        if self.has_table(namespace, name) {
            self.tables[self.table_index(namespace, name)].files
        } else {
            Seq::empty()
        }
    }

    /// No namespace and no table occurs twice, every table lies in a
    /// namespace that exists, and no table registers a path twice.
    pub open spec fn wf(self) -> bool {
        &&& forall|i: int, j: int|
            0 <= i < j < self.namespaces.len() ==> #[trigger] self.namespaces[i]
                != #[trigger] self.namespaces[j]
        &&& forall|i: int, j: int|
            0 <= i < j < self.tables.len() ==> !((#[trigger] self.tables[i]).namespace == (
            #[trigger] self.tables[j]).namespace && self.tables[i].name == self.tables[j].name)
        &&& forall|i: int|
            0 <= i < self.tables.len() ==> self.has_namespace((#[trigger] self.tables[i]).namespace)
        &&& forall|i: int|
            0 <= i < self.tables.len() ==> files_distinct((#[trigger] self.tables[i]).files)
    }

    /// The answer to a request to load a table.
    pub open spec fn load_reply(self, namespace: Seq<char>, name: Seq<char>) -> CatalogReply {
        if self.has_table(namespace, name) {
            CatalogReply::TableFound { snapshot: snapshot_of(self.files_of(namespace, name)) }
        } else {
            CatalogReply::TableMissing
        }
    }

    /// The catalog after a request to create a namespace.
    pub open spec fn with_namespace(self, namespace: Seq<char>) -> CatalogModel {
        if self.has_namespace(namespace) {
            self
        } else {
            CatalogModel { namespaces: self.namespaces.push(namespace), ..self }
        }
    }

    /// The answer to a request to create a namespace.
    pub open spec fn namespace_reply(self, namespace: Seq<char>) -> CatalogReply {
        if self.has_namespace(namespace) {
            CatalogReply::NamespaceExists
        } else {
            CatalogReply::NamespaceCreated
        }
    }

    /// The catalog after a request to create a table. A table is created
    /// only in a namespace that exists.
    pub open spec fn with_table(
        self,
        namespace: Seq<char>,
        name: Seq<char>,
        schema: Seq<ColumnModel>,
    ) -> CatalogModel {
        if self.has_table(namespace, name) || !self.has_namespace(namespace) {
            self
        } else {
            CatalogModel {
                tables: self.tables.push(
                    TableModel { namespace, name, schema, files: Seq::empty() },
                ),
                ..self
            }
        }
    }

    /// The answer to a request to create a table.
    pub open spec fn table_reply(self, namespace: Seq<char>, name: Seq<char>) -> CatalogReply {
        if self.has_table(namespace, name) {
            CatalogReply::TableExists
        } else if !self.has_namespace(namespace) {
            CatalogReply::Failed
        } else {
            CatalogReply::TableCreated { snapshot: 0 }
        }
    }

    /// The table with a file registered, whatever the snapshot it was meant
    /// for: the union of the table's files and the new one.
    pub open spec fn with_file(
        self,
        namespace: Seq<char>,
        name: Seq<char>,
        file: DataFileModel,
    ) -> CatalogModel {
        if self.has_table(namespace, name) {
            let i = self.table_index(namespace, name);
            let table = self.tables[i];
            CatalogModel {
                tables: self.tables.update(
                    i,
                    TableModel { files: registered(table.files, file), ..table },
                ),
                ..self
            }
        } else {
            self
        }
    }

    /// The request to append does not change the table: the table is
    /// missing, or the file is new and the table has moved on from the
    /// snapshot `base`.
    pub open spec fn append_refused(
        self,
        namespace: Seq<char>,
        name: Seq<char>,
        file: DataFileModel,
        base: u64,
    ) -> bool {
        !self.has_table(namespace, name) || (!has_file(self.files_of(namespace, name), file.path)
            && base != snapshot_of(self.files_of(namespace, name)))
    }

    /// The catalog after a request to append a file on top of the snapshot
    /// `base`.
    pub open spec fn appended(
        self,
        namespace: Seq<char>,
        name: Seq<char>,
        file: DataFileModel,
        base: u64,
    ) -> CatalogModel {
        if self.append_refused(namespace, name, file, base) {
            self
        } else {
            self.with_file(namespace, name, file)
        }
    }

    /// The answer to a request to append a file on top of the snapshot
    /// `base`. A file that is registered already is a success whatever the
    /// base: that is what makes a retry safe.
    pub open spec fn append_reply(
        self,
        namespace: Seq<char>,
        name: Seq<char>,
        file: DataFileModel,
        base: u64,
    ) -> CatalogReply {
        if !self.has_table(namespace, name) {
            CatalogReply::Failed
        } else if self.append_refused(namespace, name, file, base) {
            CatalogReply::Conflict
        } else {
            CatalogReply::Appended {
                snapshot: snapshot_of(registered(self.files_of(namespace, name), file)),
            }
        }
    }

    /// The catalog after a whole commit: the namespace and the table are
    /// there, created if they were not, and the table registers the file.
    pub open spec fn committed(
        self,
        namespace: Seq<char>,
        name: Seq<char>,
        schema: Seq<ColumnModel>,
        file: DataFileModel,
    ) -> CatalogModel {
        if self.has_table(namespace, name) {
            self.with_file(namespace, name, file)
        } else {
            self.with_namespace(namespace).with_table(namespace, name, schema).with_file(
                namespace,
                name,
                file,
            )
        }
    }
}

/// In a well-formed catalog a table's position is determined by its name.
pub proof fn table_index_is_unique(
    catalog: CatalogModel,
    i: int,
    namespace: Seq<char>,
    name: Seq<char>,
)
    requires
        catalog.wf(),
        catalog.table_matches(i, namespace, name),
    ensures
        catalog.has_table(namespace, name),
        catalog.table_index(namespace, name) == i,
        catalog.files_of(namespace, name) == catalog.tables[i].files,
{
}

/// Creating a namespace keeps the catalog well-formed and touches no table.
pub proof fn with_namespace_keeps_wf(catalog: CatalogModel, namespace: Seq<char>)
    requires
        catalog.wf(),
    ensures
        catalog.with_namespace(namespace).wf(),
        catalog.with_namespace(namespace).has_namespace(namespace),
        catalog.with_namespace(namespace).tables == catalog.tables,
{
    let after = catalog.with_namespace(namespace);
    if !catalog.has_namespace(namespace) {
        assert(after.namespaces[catalog.namespaces.len() as int] == namespace);
        assert forall|i: int| 0 <= i < after.tables.len() implies after.has_namespace(
            (#[trigger] after.tables[i]).namespace,
        ) by {
            let ns = catalog.tables[i].namespace;
            let k = choose|k: int| 0 <= k < catalog.namespaces.len() && catalog.namespaces[k] == ns;
            assert(after.namespaces[k] == ns);
        }
    }
}

/// Creating a table keeps the catalog well-formed. In a namespace that
/// exists the table is there afterwards; if it was created, it is empty.
pub proof fn with_table_keeps_wf(
    catalog: CatalogModel,
    namespace: Seq<char>,
    name: Seq<char>,
    schema: Seq<ColumnModel>,
)
    requires
        catalog.wf(),
    ensures
        catalog.with_table(namespace, name, schema).wf(),
        catalog.with_table(namespace, name, schema).namespaces == catalog.namespaces,
        catalog.has_namespace(namespace) ==> catalog.with_table(namespace, name, schema).has_table(
            namespace,
            name,
        ),
        catalog.has_namespace(namespace) && !catalog.has_table(namespace, name)
            ==> catalog.with_table(namespace, name, schema).files_of(namespace, name)
            == Seq::<DataFileModel>::empty() && catalog.with_table(
            namespace,
            name,
            schema,
        ).table_index(namespace, name) == catalog.tables.len(),
{
    let after = catalog.with_table(namespace, name, schema);
    if !catalog.has_table(namespace, name) && catalog.has_namespace(namespace) {
        let n = catalog.tables.len() as int;
        assert forall|i: int, j: int| 0 <= i < j < after.tables.len() implies !((
        #[trigger] after.tables[i]).namespace == (#[trigger] after.tables[j]).namespace
            && after.tables[i].name == after.tables[j].name) by {
            if j == n && after.tables[i].namespace == namespace && after.tables[i].name == name {
                assert(catalog.table_matches(i, namespace, name));
            }
        }
        table_index_is_unique(after, n, namespace, name);
    }
}

/// Registering a file keeps a list of distinct files distinct, and the file's
/// path is registered afterwards.
pub proof fn registered_keeps_distinct(files: Seq<DataFileModel>, file: DataFileModel)
    requires
        files_distinct(files),
    ensures
        files_distinct(registered(files, file)),
        has_file(registered(files, file), file.path),
        registered(registered(files, file), file) == registered(files, file),
{
    let after = registered(files, file);
    if !has_file(files, file.path) {
        assert(file_matches(after, files.len() as int, file.path));
        assert forall|i: int, j: int| 0 <= i < j < after.len() implies (#[trigger] after[i]).path
            != (#[trigger] after[j]).path by {
            if j == files.len() && after[i].path == file.path {
                assert(file_matches(files, i, file.path));
            }
        }
    }
}

/// Registering a file with a table keeps the catalog well-formed, touches no
/// other table and no namespace, and the table registers the union of its
/// files and the new one.
pub proof fn with_file_keeps_wf(
    catalog: CatalogModel,
    namespace: Seq<char>,
    name: Seq<char>,
    file: DataFileModel,
)
    requires
        catalog.wf(),
    ensures
        catalog.with_file(namespace, name, file).wf(),
        catalog.with_file(namespace, name, file).namespaces == catalog.namespaces,
        catalog.with_file(namespace, name, file).has_table(namespace, name) == catalog.has_table(
            namespace,
            name,
        ),
        catalog.has_table(namespace, name) ==> catalog.with_file(namespace, name, file).files_of(
            namespace,
            name,
        ) == registered(catalog.files_of(namespace, name), file) && catalog.with_file(
            namespace,
            name,
            file,
        ).table_index(namespace, name) == catalog.table_index(namespace, name),
{
    let after = catalog.with_file(namespace, name, file);
    if catalog.has_table(namespace, name) {
        let k = catalog.table_index(namespace, name);
        registered_keeps_distinct(catalog.tables[k].files, file);
        table_index_is_unique(after, k, namespace, name);
    }
}

/// A whole commit keeps the catalog well-formed. Afterwards the table exists
/// and registers the union of the files it had and the new one.
pub proof fn committed_registers_file(
    catalog: CatalogModel,
    namespace: Seq<char>,
    name: Seq<char>,
    schema: Seq<ColumnModel>,
    file: DataFileModel,
)
    requires
        catalog.wf(),
    ensures
        catalog.committed(namespace, name, schema, file).wf(),
        catalog.committed(namespace, name, schema, file).has_namespace(namespace),
        catalog.committed(namespace, name, schema, file).has_table(namespace, name),
        catalog.committed(namespace, name, schema, file).files_of(namespace, name) == registered(
            catalog.files_of(namespace, name),
            file,
        ),
        has_file(catalog.committed(namespace, name, schema, file).files_of(namespace, name), file.path),
{
    if catalog.has_table(namespace, name) {
        with_file_keeps_wf(catalog, namespace, name, file);
        registered_keeps_distinct(catalog.files_of(namespace, name), file);
    } else {
        let a = catalog.with_namespace(namespace);
        with_namespace_keeps_wf(catalog, namespace);
        assert(!a.has_table(namespace, name));
        let b = a.with_table(namespace, name, schema);
        with_table_keeps_wf(a, namespace, name, schema);
        with_file_keeps_wf(b, namespace, name, file);
        registered_keeps_distinct(Seq::<DataFileModel>::empty(), file);
    }
}

/// Committing the same file a second time changes nothing: the table
/// registers the file once.
pub proof fn commit_is_idempotent(
    catalog: CatalogModel,
    namespace: Seq<char>,
    name: Seq<char>,
    schema: Seq<ColumnModel>,
    file: DataFileModel,
)
    requires
        catalog.wf(),
    ensures
        catalog.committed(namespace, name, schema, file).committed(namespace, name, schema, file)
            == catalog.committed(namespace, name, schema, file),
{
    let once = catalog.committed(namespace, name, schema, file);
    committed_registers_file(catalog, namespace, name, schema, file);
    let k = once.table_index(namespace, name);
    let table = once.tables[k];
    assert(once.tables.update(k, TableModel { files: table.files, ..table }) =~= once.tables);
}

/// Appending the same file a second time is a success that changes nothing,
/// whatever base snapshot the second request names.
pub proof fn append_is_idempotent(
    catalog: CatalogModel,
    namespace: Seq<char>,
    name: Seq<char>,
    file: DataFileModel,
    base: u64,
    stale: u64,
)
    requires
        catalog.wf(),
        catalog.append_reply(namespace, name, file, base) is Appended,
    ensures
        catalog.appended(namespace, name, file, base).appended(namespace, name, file, stale)
            == catalog.appended(namespace, name, file, base),
        catalog.appended(namespace, name, file, base).append_reply(namespace, name, file, stale)
            == catalog.append_reply(namespace, name, file, base),
{
    let once = catalog.appended(namespace, name, file, base);
    with_file_keeps_wf(catalog, namespace, name, file);
    registered_keeps_distinct(catalog.files_of(namespace, name), file);
    let k = once.table_index(namespace, name);
    let table = once.tables[k];
    assert(once.tables.update(k, TableModel { files: table.files, ..table }) =~= once.tables);
}

/// A table as the catalog holds it.
#[derive(Debug)]
pub struct TableEntry {
    pub namespace: String,
    pub name: String,
    pub schema: Vec<ColumnSpec>,
    pub files: Vec<DataFile>,
}

impl View for TableEntry {
    type V = TableModel;

    open spec fn view(&self) -> TableModel {
        TableModel {
            namespace: self.namespace@,
            name: self.name@,
            schema: column_models(self.schema@),
            files: file_models(self.files@),
        }
    }
}

/// The contents of a list of tables.
pub open spec fn table_models(tables: Seq<TableEntry>) -> Seq<TableModel> {
    Seq::new(tables.len(), |i: int| tables[i]@)
}

/// What a commit is about: the table, the schema to create it with, and the
/// file to register.
#[derive(Debug)]
pub struct CommitTarget {
    pub namespace: String,
    pub table: String,
    pub schema: Vec<ColumnSpec>,
    pub file: DataFile,
}

impl DataFile {
    /// A copy of this file reference.
    pub fn duplicate(&self) -> (copy: DataFile)
        ensures
            copy@ == self@,
    {
        DataFile { path: self.path.clone(), len_bytes: self.len_bytes, row_count: self.row_count }
    }
}

/// A copy of a schema.
pub fn duplicate_schema(schema: &Vec<ColumnSpec>) -> (copy: Vec<ColumnSpec>)
    ensures
        column_models(copy@) == column_models(schema@),
{
    let mut copy: Vec<ColumnSpec> = Vec::new();
    let mut i: usize = 0;
    while i < schema.len()
        invariant
            i <= schema.len(),
            copy.len() == i,
            forall|k: int| 0 <= k < i ==> copy[k]@ == schema[k]@,
        decreases schema.len() - i,
    {
        copy.push(schema[i].duplicate());
        i += 1;
    }
    copy
}

fn find_namespace(namespaces: &Vec<String>, namespace: &str) -> (found: bool)
    ensures
        found == texts(namespaces@).contains(namespace@),
{
    let mut i: usize = 0;
    while i < namespaces.len()
        invariant
            i <= namespaces.len(),
            forall|k: int| 0 <= k < i ==> namespaces[k]@ != namespace@,
        decreases namespaces.len() - i,
    {
        if same_text(namespaces[i].as_str(), namespace) {
            assert(texts(namespaces@)[i as int] == namespace@);
            return true;
        }
        i += 1;
    }
    assert forall|k: int| 0 <= k < texts(namespaces@).len() implies texts(namespaces@)[k]
        != namespace@ by {}
    false
}

fn find_table(tables: &Vec<TableEntry>, namespace: &str, name: &str) -> (found: Option<usize>)
    ensures
        found matches Some(i) ==> i < tables.len() && tables[i as int].namespace@ == namespace@
            && tables[i as int].name@ == name@,
        found is None ==> forall|k: int|
            0 <= k < tables.len() ==> !((#[trigger] tables[k]).namespace@ == namespace@
                && tables[k].name@ == name@),
{
    let mut i: usize = 0;
    while i < tables.len()
        invariant
            i <= tables.len(),
            forall|k: int|
                0 <= k < i ==> !((#[trigger] tables[k]).namespace@ == namespace@ && tables[k].name@
                    == name@),
        decreases tables.len() - i,
    {
        if same_text(tables[i].namespace.as_str(), namespace) && same_text(
            tables[i].name.as_str(),
            name,
        ) {
            return Some(i);
        }
        i += 1;
    }
    None
}

fn find_file(files: &Vec<DataFile>, path: &str) -> (found: bool)
    ensures
        found == has_file(file_models(files@), path@),
{
    let mut i: usize = 0;
    while i < files.len()
        invariant
            i <= files.len(),
            forall|k: int| 0 <= k < i ==> (#[trigger] files[k]).path@ != path@,
        decreases files.len() - i,
    {
        if same_text(files[i].path.as_str(), path) {
            assert(file_matches(file_models(files@), i as int, path@));
            return true;
        }
        i += 1;
    }
    assert forall|k: int| !file_matches(file_models(files@), k, path@) by {}
    false
}

/// The catalog held in memory.
#[derive(Debug)]
pub struct MemoryCatalog {
    namespaces: Vec<String>,
    tables: Vec<TableEntry>,
}

impl View for MemoryCatalog {
    type V = CatalogModel;

    closed spec fn view(&self) -> CatalogModel {
        CatalogModel { namespaces: texts(self.namespaces@), tables: table_models(self.tables@) }
    }
}

proof fn found_table_matches(
    tables: Seq<TableEntry>,
    catalog: CatalogModel,
    found: Option<usize>,
    namespace: Seq<char>,
    name: Seq<char>,
)
    requires
        catalog.wf(),
        catalog.tables == table_models(tables),
        found matches Some(i) ==> i < tables.len() && tables[i as int].namespace@ == namespace
            && tables[i as int].name@ == name,
        found is None ==> forall|k: int|
            0 <= k < tables.len() ==> !((#[trigger] tables[k]).namespace@ == namespace
                && tables[k].name@ == name),
    ensures
        found is Some == catalog.has_table(namespace, name),
        found matches Some(i) ==> catalog.table_index(namespace, name) == i && catalog.files_of(
            namespace,
            name,
        ) == file_models(tables[i as int].files@),
{
    if let Some(i) = found {
        table_index_is_unique(catalog, i as int, namespace, name);
    }
}

impl MemoryCatalog {
    /// Every catalog is well-formed at all times.
    #[verifier::type_invariant]
    pub open spec fn inv(&self) -> bool {
        self@.wf()
    }

    /// A catalog without namespaces and tables.
    pub fn new() -> (catalog: MemoryCatalog)
        ensures
            catalog@ == CatalogModel::empty(),
            catalog@.wf(),
    {
        let catalog = MemoryCatalog { namespaces: Vec::new(), tables: Vec::new() };
        assert(catalog@.namespaces =~= Seq::<Seq<char>>::empty());
        assert(catalog@.tables =~= Seq::<TableModel>::empty());
        catalog
    }

    /// Loads a table: says whether it exists and, if so, at which snapshot
    /// it stands.
    pub fn load_table(&self, namespace: &str, name: &str) -> (reply: CatalogReply)
        ensures
            self@.wf(),
            reply == self@.load_reply(namespace@, name@),
    {
        proof {
            use_type_invariant(self);
        }
        let found = find_table(&self.tables, namespace, name);
        proof {
            found_table_matches(self.tables@, self@, found, namespace@, name@);
        }
        match found {
            Some(i) => CatalogReply::TableFound { snapshot: self.tables[i].files.len() as u64 },
            None => CatalogReply::TableMissing,
        }
    }

    /// Creates a namespace, unless it exists.
    pub fn create_namespace(&mut self, namespace: &str) -> (reply: CatalogReply)
        ensures
            old(self)@.wf(),
            final(self)@.wf(),
            final(self)@ == old(self)@.with_namespace(namespace@),
            reply == old(self)@.namespace_reply(namespace@),
    {
        proof {
            use_type_invariant(&*self);
            with_namespace_keeps_wf(self@, namespace@);
        }
        if find_namespace(&self.namespaces, namespace) {
            return CatalogReply::NamespaceExists;
        }
        let mut taken = MemoryCatalog::new();
        core::mem::swap(&mut taken, self);
        let MemoryCatalog { mut namespaces, tables } = taken;
        namespaces.push(namespace.to_owned());
        assert(texts(namespaces@) =~= old(self)@.namespaces.push(namespace@));
        *self = MemoryCatalog { namespaces, tables };
        CatalogReply::NamespaceCreated
    }

    /// Creates a table with the given schema, unless it exists. The
    /// namespace must exist.
    pub fn create_table(&mut self, namespace: &str, name: &str, schema: Vec<ColumnSpec>) -> (reply:
        CatalogReply)
        ensures
            old(self)@.wf(),
            final(self)@.wf(),
            final(self)@ == old(self)@.with_table(namespace@, name@, column_models(schema@)),
            reply == old(self)@.table_reply(namespace@, name@),
    {
        proof {
            use_type_invariant(&*self);
            with_table_keeps_wf(self@, namespace@, name@, column_models(schema@));
        }
        let found = find_table(&self.tables, namespace, name);
        proof {
            found_table_matches(self.tables@, self@, found, namespace@, name@);
        }
        if found.is_some() {
            return CatalogReply::TableExists;
        }
        if !find_namespace(&self.namespaces, namespace) {
            return CatalogReply::Failed;
        }
        let mut taken = MemoryCatalog::new();
        core::mem::swap(&mut taken, self);
        let MemoryCatalog { namespaces, mut tables } = taken;
        let entry = TableEntry {
            namespace: namespace.to_owned(),
            name: name.to_owned(),
            schema,
            files: Vec::new(),
        };
        assert(entry@.files =~= Seq::<DataFileModel>::empty());
        tables.push(entry);
        assert(table_models(tables@) =~= old(self)@.tables.push(entry@));
        *self = MemoryCatalog { namespaces, tables };
        CatalogReply::TableCreated { snapshot: 0 }
    }

    /// Registers a file with a table as a new snapshot on top of the
    /// snapshot `base`.
    ///
    /// A file that the table registers already is a success and changes
    /// nothing. Otherwise the table must stand at `base`, or the request is a
    /// conflict.
    pub fn append_file(&mut self, namespace: &str, name: &str, file: DataFile, base: u64) -> (reply:
        CatalogReply)
        ensures
            old(self)@.wf(),
            final(self)@.wf(),
            final(self)@ == old(self)@.appended(namespace@, name@, file@, base),
            reply == old(self)@.append_reply(namespace@, name@, file@, base),
    {
        proof {
            use_type_invariant(&*self);
            with_file_keeps_wf(self@, namespace@, name@, file@);
        }
        let found = find_table(&self.tables, namespace, name);
        proof {
            found_table_matches(self.tables@, self@, found, namespace@, name@);
        }
        let i = match found {
            Some(i) => i,
            None => {
                return CatalogReply::Failed;
            },
        };
        let count = self.tables[i].files.len();
        if find_file(&self.tables[i].files, file.path.as_str()) {
            assert(self@.with_file(namespace@, name@, file@).tables =~= self@.tables);
            return CatalogReply::Appended { snapshot: count as u64 };
        }
        if base != count as u64 {
            return CatalogReply::Conflict;
        }
        let mut taken = MemoryCatalog::new();
        core::mem::swap(&mut taken, self);
        let MemoryCatalog { namespaces, mut tables } = taken;
        let ghost before = tables@;
        let mut entry = tables.remove(i);
        let ghost file_model = file@;
        entry.files.push(file);
        let grown = entry.files.len();
        assert(file_models(entry.files@) =~= file_models(before[i as int].files@).push(file_model));
        tables.insert(i, entry);
        assert(table_models(tables@) =~= old(self)@.tables.update(i as int, entry@));
        *self = MemoryCatalog { namespaces, tables };
        CatalogReply::Appended { snapshot: grown as u64 }
    }

    /// Answers one request of a commit's protocol.
    pub fn answer(&mut self, request: CatalogRequest, target: &CommitTarget) -> (reply: CatalogReply)
        ensures
            old(self)@.wf(),
            final(self)@.wf(),
            final(self)@ == answered(old(self)@, request, target).0,
            reply == answered(old(self)@, request, target).1,
    {
        proof {
            use_type_invariant(&*self);
        }
        match request {
            CatalogRequest::LoadTable => self.load_table(
                target.namespace.as_str(),
                target.table.as_str(),
            ),
            CatalogRequest::CreateNamespace => self.create_namespace(target.namespace.as_str()),
            CatalogRequest::CreateTable => self.create_table(
                target.namespace.as_str(),
                target.table.as_str(),
                duplicate_schema(&target.schema),
            ),
            CatalogRequest::AppendFile { base } => self.append_file(
                target.namespace.as_str(),
                target.table.as_str(),
                target.file.duplicate(),
                base,
            ),
        }
    }

    /// The namespaces, in the order of their creation.
    pub fn namespace_names(&self) -> (names: Vec<String>)
        ensures
            texts(names@) == self@.namespaces,
    {
        let mut names: Vec<String> = Vec::new();
        let mut i: usize = 0;
        while i < self.namespaces.len()
            invariant
                i <= self.namespaces.len(),
                names.len() == i,
                forall|k: int| 0 <= k < i ==> names[k]@ == self.namespaces[k]@,
            decreases self.namespaces.len() - i,
        {
            names.push(self.namespaces[i].clone());
            i += 1;
        }
        names
    }

    /// The number of tables.
    pub fn table_count(&self) -> (n: usize)
        ensures
            n == self@.tables.len(),
    {
        self.tables.len()
    }

    /// The paths of the files that a table registers, in the order of their
    /// registration, or `None` where the table does not exist.
    pub fn file_paths(&self, namespace: &str, name: &str) -> (paths: Option<Vec<String>>)
        ensures
            self@.wf(),
            paths is Some == self@.has_table(namespace@, name@),
            paths matches Some(list) ==> list.len() == self@.files_of(namespace@, name@).len()
                && forall|k: int|
                0 <= k < list.len() ==> (#[trigger] list[k])@ == self@.files_of(
                    namespace@,
                    name@,
                )[k].path,
    {
        proof {
            use_type_invariant(self);
        }
        let found = find_table(&self.tables, namespace, name);
        proof {
            found_table_matches(self.tables@, self@, found, namespace@, name@);
        }
        match found {
            Some(i) => {
                let files = &self.tables[i].files;
                let mut list: Vec<String> = Vec::new();
                let mut k: usize = 0;
                while k < files.len()
                    invariant
                        k <= files.len(),
                        list.len() == k,
                        forall|j: int| 0 <= j < k ==> (#[trigger] list[j])@ == files[j].path@,
                    decreases files.len() - k,
                {
                    list.push(files[k].path.clone());
                    k += 1;
                }
                Some(list)
            },
            None => None,
        }
    }

    /// The schema of a table, or `None` where the table does not exist.
    pub fn table_schema(&self, namespace: &str, name: &str) -> (schema: Option<Vec<ColumnSpec>>)
        ensures
            self@.wf(),
            schema is Some == self@.has_table(namespace@, name@),
            schema matches Some(columns) ==> column_models(columns@) == self@.tables[self@.table_index(
                namespace@,
                name@,
            )].schema,
    {
        proof {
            use_type_invariant(self);
        }
        let found = find_table(&self.tables, namespace, name);
        proof {
            found_table_matches(self.tables@, self@, found, namespace@, name@);
        }
        match found {
            Some(i) => Some(duplicate_schema(&self.tables[i].schema)),
            None => None,
        }
    }
}

/// The catalog after one request of a commit's protocol, and its answer.
pub open spec fn answered(
    catalog: CatalogModel,
    request: CatalogRequest,
    target: &CommitTarget,
) -> (CatalogModel, CatalogReply) {
    let namespace = target.namespace@;
    let name = target.table@;
    match request {
        CatalogRequest::LoadTable => (catalog, catalog.load_reply(namespace, name)),
        CatalogRequest::CreateNamespace => (
            catalog.with_namespace(namespace),
            catalog.namespace_reply(namespace),
        ),
        CatalogRequest::CreateTable => (
            catalog.with_table(namespace, name, column_models(target.schema@)),
            catalog.table_reply(namespace, name),
        ),
        CatalogRequest::AppendFile { base } => (
            catalog.appended(namespace, name, target.file@, base),
            catalog.append_reply(namespace, name, target.file@, base),
        ),
    }
}

} // verus!
