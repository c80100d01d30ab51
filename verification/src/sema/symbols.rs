//! The symbol table: the functions, structs and variables in scope.
use vstd::prelude::*;
use indexmap::IndexMap;
use crate::lexer::chars_of;
use super::ty::{tys_view, SpecTy, StructId, Ty};
use super::tast::{FuncId, VarId};

verus! {

// ---- the field map of a struct ----

#[verifier::external_type_specification]
#[verifier::external_body]
#[verifier::reject_recursive_types(K)]
#[verifier::reject_recursive_types(V)]
#[verifier::reject_recursive_types(S)]
pub struct ExIndexMap<K, V, S>(IndexMap<K, V, S>);

/// The keys of a struct's field map, in the order they were inserted.
pub uninterp spec fn field_map_keys(m: IndexMap<String, usize>) -> Seq<Seq<char>>;

/// `IndexMap::new`: a map with no keys.
#[verifier::external_body]
pub(crate) fn field_map_new() -> (m: IndexMap<String, usize>)
    ensures
        field_map_keys(m) == Seq::<Seq<char>>::empty(),
{
    IndexMap::new()
}

/// `IndexMap::contains_key`: whether an equal key is in the map.
#[verifier::external_body]
pub(crate) fn field_map_contains(m: &IndexMap<String, usize>, key: &String) -> (b: bool)
    ensures
        b == field_map_keys(*m).contains(key@),
{
    m.contains_key(key)
}

/// `IndexMap::insert` of a key that the map does not hold: the key goes last
/// in the order and nothing is returned. (What the map keeps as the key's
/// value is not stated.)
#[verifier::external_body]
pub(crate) fn field_map_insert(m: &mut IndexMap<String, usize>, key: String, index: usize) -> (prev: Option<usize>)
    requires
        !field_map_keys(*old(m)).contains(key@),
    ensures
        field_map_keys(*final(m)) == field_map_keys(*old(m)).push(key@),
        prev is None,
{
    m.insert(key, index)
}

// ---- naming conventions ----

pub open spec fn is_lower(c: char) -> bool {
    'a' <= c && c <= 'z'
}

pub open spec fn is_upper(c: char) -> bool {
    'A' <= c && c <= 'Z'
}

pub open spec fn is_digit(c: char) -> bool {
    '0' <= c && c <= '9'
}

/// Starts with a lowercase ASCII letter or `_`, and holds only those and digits.
pub open spec fn spec_is_snake_case(name: Seq<char>) -> bool {
    &&& name.len() > 0
    &&& (is_lower(name[0]) || name[0] == '_')
    &&& forall|i: int| 0 <= i < name.len() ==> #[trigger] is_lower(name[i]) || is_digit(name[i]) || name[i] == '_'
}

/// Starts with an uppercase ASCII letter, and holds only ASCII letters and digits.
pub open spec fn spec_is_pascal_case(name: Seq<char>) -> bool {
    &&& name.len() > 0
    &&& is_upper(name[0])
    &&& forall|i: int| 0 <= i < name.len() ==> #[trigger] is_lower(name[i]) || is_upper(name[i]) || is_digit(name[i])
}

pub fn is_snake_case(name: &str) -> (b: bool)
    ensures
        b == spec_is_snake_case(name@),
{
    let cs = chars_of(name);
    if cs.len() == 0 {
        return false;
    }
    if !(('a' <= cs[0] && cs[0] <= 'z') || cs[0] == '_') {
        return false;
    }
    let mut i: usize = 0;
    while i < cs.len()
        invariant
            i <= cs.len(),
            cs@ == name@,
            forall|j: int| 0 <= j < i ==> #[trigger] is_lower(cs@[j]) || is_digit(cs@[j]) || cs@[j] == '_',
        decreases cs.len() - i,
    {
        let c = cs[i];
        if !(('a' <= c && c <= 'z') || ('0' <= c && c <= '9') || c == '_') {
            assert(!(is_lower(name@[i as int]) || is_digit(name@[i as int]) || name@[i as int] == '_'));
            return false;
        }
        i = i + 1;
    }
    true
}

pub fn is_pascal_case(name: &str) -> (b: bool)
    ensures
        b == spec_is_pascal_case(name@),
{
    let cs = chars_of(name);
    if cs.len() == 0 {
        return false;
    }
    if !('A' <= cs[0] && cs[0] <= 'Z') {
        return false;
    }
    let mut i: usize = 0;
    while i < cs.len()
        invariant
            i <= cs.len(),
            cs@ == name@,
            forall|j: int| 0 <= j < i ==> #[trigger] is_lower(cs@[j]) || is_upper(cs@[j]) || is_digit(cs@[j]),
        decreases cs.len() - i,
    {
        let c = cs[i];
        if !(('a' <= c && c <= 'z') || ('A' <= c && c <= 'Z') || ('0' <= c && c <= '9')) {
            assert(!(is_lower(name@[i as int]) || is_upper(name@[i as int]) || is_digit(name@[i as int])));
            return false;
        }
        i = i + 1;
    }
    true
}

/// Whether two strings hold the same characters.
pub fn same_text(a: &String, b: &String) -> (res: bool)
    ensures
        res == (a@ == b@),
{
    let x = chars_of(a.as_str());
    let y = chars_of(b.as_str());
    if x.len() != y.len() {
        return false;
    }
    let mut i: usize = 0;
    while i < x.len()
        invariant
            i <= x.len(),
            x.len() == y.len(),
            x@ == a@,
            y@ == b@,
            forall|j: int| 0 <= j < i ==> x@[j] == y@[j],
        decreases x.len() - i,
    {
        if x[i] != y[i] {
            return false;
        }
        i = i + 1;
    }
    assert(x@ =~= y@);
    true
}

/// Whether the string holds exactly the given characters.
pub fn text_is(a: &String, w: &[char]) -> (res: bool)
    ensures
        res == (a@ == w@),
{
    let x = chars_of(a.as_str());
    if x.len() != w.len() {
        return false;
    }
    let mut i: usize = 0;
    while i < x.len()
        invariant
            i <= x.len(),
            x.len() == w.len(),
            x@ == a@,
            forall|j: int| 0 <= j < i ==> x@[j] == w@[j],
        decreases x.len() - i,
    {
        if x[i] != w[i] {
            return false;
        }
        i = i + 1;
    }
    assert(x@ =~= w@);
    true
}

// ---- symbols ----

pub struct FuncSymbol {
    pub name: String,
    pub id: FuncId,
    pub params_ty: Vec<Ty>,
    pub ret_ty: Ty,
}

pub struct StructSymbol {
    pub name: String,
    pub id: StructId,
    /// The field names in declaration order, each mapped to its position.
    pub fields: IndexMap<String, usize>,
    /// The field types, in the same order.
    pub field_tys: Vec<Ty>,
    /// Whether the fields were resolved yet.
    pub defined: bool,
}

pub struct VarSymbol {
    pub name: String,
    pub id: VarId,
    pub ty: Ty,
}

pub struct SpecFuncSymbol {
    pub name: Seq<char>,
    pub id: FuncId,
    pub params_ty: Seq<SpecTy>,
    pub ret_ty: SpecTy,
}

pub struct SpecStructSymbol {
    pub name: Seq<char>,
    pub id: StructId,
    pub field_names: Seq<Seq<char>>,
    pub field_tys: Seq<SpecTy>,
    pub defined: bool,
}

pub struct SpecVarSymbol {
    pub name: Seq<char>,
    pub id: VarId,
    pub ty: SpecTy,
}

impl View for FuncSymbol {
    type V = SpecFuncSymbol;

    open spec fn view(&self) -> SpecFuncSymbol {
        SpecFuncSymbol { name: self.name@, id: self.id, params_ty: tys_view(self.params_ty@), ret_ty: self.ret_ty@ }
    }
}

impl View for StructSymbol {
    type V = SpecStructSymbol;

    open spec fn view(&self) -> SpecStructSymbol {
        SpecStructSymbol {
            name: self.name@,
            id: self.id,
            field_names: field_map_keys(self.fields),
            field_tys: tys_view(self.field_tys@),
            defined: self.defined,
        }
    }
}

impl View for VarSymbol {
    type V = SpecVarSymbol;

    open spec fn view(&self) -> SpecVarSymbol {
        SpecVarSymbol { name: self.name@, id: self.id, ty: self.ty@ }
    }
}

/// The model of the symbol table.
pub struct SpecSymbols {
    /// Functions in declaration order; a function's id is its index.
    pub funcs: Seq<SpecFuncSymbol>,
    /// Structs in declaration order; a struct's id is its index.
    pub structs: Seq<SpecStructSymbol>,
    /// The variable scopes, innermost last.
    pub scopes: Seq<Seq<SpecVarSymbol>>,
    /// The id the next variable of the current function gets.
    pub next_local: u32,
    /// The return type of the function being checked.
    pub ret_ty: SpecTy,
}

pub struct SymbolTable {
    pub funcs: Vec<FuncSymbol>,
    pub structs: Vec<StructSymbol>,
    pub scopes: Vec<Vec<VarSymbol>>,
    pub cur_local_id: u32,
    pub cur_ret_ty: Ty,
}

pub open spec fn funcs_view(s: Seq<FuncSymbol>) -> Seq<SpecFuncSymbol> {
    s.map_values(|f: FuncSymbol| f@)
}

pub open spec fn structs_view(s: Seq<StructSymbol>) -> Seq<SpecStructSymbol> {
    s.map_values(|f: StructSymbol| f@)
}

pub open spec fn scope_view(s: Seq<VarSymbol>) -> Seq<SpecVarSymbol> {
    s.map_values(|v: VarSymbol| v@)
}

pub open spec fn scopes_view(s: Seq<Vec<VarSymbol>>) -> Seq<Seq<SpecVarSymbol>> {
    s.map_values(|v: Vec<VarSymbol>| scope_view(v@))
}

impl View for SymbolTable {
    type V = SpecSymbols;

    open spec fn view(&self) -> SpecSymbols {
        SpecSymbols {
            funcs: funcs_view(self.funcs@),
            structs: structs_view(self.structs@),
            scopes: scopes_view(self.scopes@),
            next_local: self.cur_local_id,
            ret_ty: self.cur_ret_ty@,
        }
    }
}

// ---- lookups in the model ----

/// The first function at or after `i` with the name.
pub open spec fn find_func(fs: Seq<SpecFuncSymbol>, name: Seq<char>, i: int) -> Option<int>
    decreases fs.len() - i,
{
    if i < 0 || i >= fs.len() {
        None
    } else if fs[i].name == name {
        Some(i)
    } else {
        find_func(fs, name, i + 1)
    }
}

/// The first struct at or after `i` with the name.
pub open spec fn find_struct(ss: Seq<SpecStructSymbol>, name: Seq<char>, i: int) -> Option<int>
    decreases ss.len() - i,
{
    if i < 0 || i >= ss.len() {
        None
    } else if ss[i].name == name {
        Some(i)
    } else {
        find_struct(ss, name, i + 1)
    }
}

/// The first variable at or after `i` of a scope with the name.
pub open spec fn find_var(vs: Seq<SpecVarSymbol>, name: Seq<char>, i: int) -> Option<int>
    decreases vs.len() - i,
{
    if i < 0 || i >= vs.len() {
        None
    } else if vs[i].name == name {
        Some(i)
    } else {
        find_var(vs, name, i + 1)
    }
}

/// The variable with the name in the innermost of the first `n` scopes that has one.
pub open spec fn lookup_var_in(scopes: Seq<Seq<SpecVarSymbol>>, name: Seq<char>, n: int) -> Option<SpecVarSymbol>
    decreases n,
{
    if n <= 0 || n > scopes.len() {
        None
    } else {
        match find_var(scopes[n - 1], name, 0) {
            Some(j) => Some(scopes[n - 1][j]),
            None => lookup_var_in(scopes, name, n - 1),
        }
    }
}

impl SpecSymbols {
    pub open spec fn empty() -> SpecSymbols {
        SpecSymbols {
            funcs: Seq::empty(),
            structs: Seq::empty(),
            scopes: Seq::empty(),
            next_local: 0,
            ret_ty: SpecTy::Void,
        }
    }

    pub open spec fn lookup_func(self, name: Seq<char>) -> Option<SpecFuncSymbol> {
        match find_func(self.funcs, name, 0) {
            Some(i) => Some(self.funcs[i]),
            None => None,
        }
    }

    pub open spec fn lookup_struct_id(self, name: Seq<char>) -> Option<StructId> {
        match find_struct(self.structs, name, 0) {
            Some(i) => Some(self.structs[i].id),
            None => None,
        }
    }

    /// A struct whose fields were resolved.
    pub open spec fn lookup_struct(self, name: Seq<char>) -> Option<SpecStructSymbol> {
        match find_struct(self.structs, name, 0) {
            Some(i) => if self.structs[i].defined {
                Some(self.structs[i])
            } else {
                None
            },
            None => None,
        }
    }

    pub open spec fn lookup_var(self, name: Seq<char>) -> Option<SpecVarSymbol> {
        lookup_var_in(self.scopes, name, self.scopes.len() as int)
    }

    pub open spec fn enter_scope(self) -> SpecSymbols {
        SpecSymbols { scopes: self.scopes.push(Seq::empty()), ..self }
    }

    pub open spec fn exit_scope(self) -> SpecSymbols {
        SpecSymbols { scopes: if self.scopes.len() > 0 { self.scopes.drop_last() } else { self.scopes }, ..self }
    }

    pub open spec fn enter_func(self, ret_ty: SpecTy) -> SpecSymbols {
        SpecSymbols { scopes: self.scopes.push(Seq::empty()), next_local: 0, ret_ty, ..self }
    }

    pub open spec fn exit_func(self) -> SpecSymbols {
        SpecSymbols { ret_ty: SpecTy::Void, ..self.exit_scope() }
    }

    /// Whether the innermost scope already has a variable with the name.
    pub open spec fn var_in_innermost(self, name: Seq<char>) -> bool {
        self.scopes.len() > 0 && find_var(self.scopes.last(), name, 0) is Some
    }

    /// The table after a new variable enters the innermost scope (a first
    /// scope when there is none).
    pub open spec fn add_var(self, name: Seq<char>, ty: SpecTy) -> SpecSymbols {
        let var = SpecVarSymbol { name, id: VarId(self.next_local), ty };
        let scopes = if self.scopes.len() > 0 {
            self.scopes.update(self.scopes.len() - 1, self.scopes.last().push(var))
        } else {
            seq![seq![var]]
        };
        SpecSymbols { scopes, next_local: self.next_local.wrapping_add(1), ..self }
    }

    pub open spec fn add_func(self, name: Seq<char>, params_ty: Seq<SpecTy>, ret_ty: SpecTy) -> SpecSymbols {
        SpecSymbols {
            funcs: self.funcs.push(SpecFuncSymbol { name, id: FuncId(self.funcs.len() as u32), params_ty, ret_ty }),
            ..self
        }
    }

    pub open spec fn add_struct(self, name: Seq<char>) -> SpecSymbols {
        SpecSymbols {
            structs: self.structs.push(
                SpecStructSymbol {
                    name,
                    id: StructId(self.structs.len() as u32),
                    field_names: Seq::empty(),
                    field_tys: Seq::empty(),
                    defined: false,
                },
            ),
            ..self
        }
    }

    /// The table after the fields of the struct at `i` were resolved.
    pub open spec fn set_fields(self, i: int, names: Seq<Seq<char>>, tys: Seq<SpecTy>) -> SpecSymbols {
        SpecSymbols {
            structs: self.structs.update(
                i,
                SpecStructSymbol { field_names: names, field_tys: tys, defined: true, ..self.structs[i] },
            ),
            ..self
        }
    }
}

// ---- the executable table ----

impl SymbolTable {
    pub fn new() -> (t: SymbolTable)
        ensures
            t@ == SpecSymbols::empty(),
    {
        let t = SymbolTable {
            funcs: Vec::new(),
            structs: Vec::new(),
            scopes: Vec::new(),
            cur_local_id: 0,
            cur_ret_ty: Ty::Void,
        };
        assert(t@.funcs =~= Seq::<SpecFuncSymbol>::empty());
        assert(t@.structs =~= Seq::<SpecStructSymbol>::empty());
        assert(t@.scopes =~= Seq::<Seq<SpecVarSymbol>>::empty());
        t
    }

    pub fn enter_scope(&mut self)
        ensures
            final(self)@ == old(self)@.enter_scope(),
    {
        let ghost old_scopes = self.scopes@;
        self.scopes.push(Vec::new());
        assert(scope_view(Seq::<VarSymbol>::empty()) =~= Seq::<SpecVarSymbol>::empty());
        assert(scopes_view(self.scopes@) =~= scopes_view(old_scopes).push(Seq::empty()));
    }

    pub fn exit_scope(&mut self)
        ensures
            final(self)@ == old(self)@.exit_scope(),
    {
        let ghost old_scopes = self.scopes@;
        if self.scopes.len() > 0 {
            self.scopes.pop();
            assert(scopes_view(self.scopes@) =~= scopes_view(old_scopes).drop_last());
        }
    }

    pub fn enter_func(&mut self, ret_ty: Ty)
        ensures
            final(self)@ == old(self)@.enter_func(ret_ty@),
    {
        self.enter_scope();
        self.cur_local_id = 0;
        self.cur_ret_ty = ret_ty;
    }

    pub fn exit_func(&mut self)
        ensures
            final(self)@ == old(self)@.exit_func(),
    {
        self.exit_scope();
        self.cur_ret_ty = Ty::Void;
    }

    pub fn cur_ret_ty(&self) -> (t: &Ty)
        ensures
            t@ == self@.ret_ty,
    {
        &self.cur_ret_ty
    }

    /// The index of the function with the name.
    pub(crate) fn func_index(&self, name: &String) -> (res: Option<usize>)
        ensures
            match res {
                Some(i) => i < self.funcs.len() && find_func(self@.funcs, name@, 0) == Some(i as int),
                None => find_func(self@.funcs, name@, 0) is None,
            },
    {
        let mut i: usize = 0;
        while i < self.funcs.len()
            invariant
                i <= self.funcs.len(),
                self@.funcs.len() == self.funcs.len(),
                find_func(self@.funcs, name@, i as int) == find_func(self@.funcs, name@, 0),
            decreases self.funcs.len() - i,
        {
            if same_text(&self.funcs[i].name, name) {
                return Some(i);
            }
            i = i + 1;
        }
        None
    }

    /// The index of the struct with the name.
    pub(crate) fn struct_index(&self, name: &String) -> (res: Option<usize>)
        ensures
            match res {
                Some(i) => i < self.structs.len() && find_struct(self@.structs, name@, 0) == Some(i as int),
                None => find_struct(self@.structs, name@, 0) is None,
            },
    {
        let mut i: usize = 0;
        while i < self.structs.len()
            invariant
                i <= self.structs.len(),
                self@.structs.len() == self.structs.len(),
                find_struct(self@.structs, name@, i as int) == find_struct(self@.structs, name@, 0),
            decreases self.structs.len() - i,
        {
            if same_text(&self.structs[i].name, name) {
                return Some(i);
            }
            i = i + 1;
        }
        None
    }

    pub fn lookup_func(&self, name: &String) -> (res: Option<&FuncSymbol>)
        ensures
            match res {
                Some(f) => self@.lookup_func(name@) == Some(f@),
                None => self@.lookup_func(name@) is None,
            },
    {
        match self.func_index(name) {
            Some(i) => Some(&self.funcs[i]),
            None => None,
        }
    }

    pub fn lookup_struct_id(&self, name: &String) -> (res: Option<StructId>)
        ensures
            res == self@.lookup_struct_id(name@),
    {
        match self.struct_index(name) {
            Some(i) => Some(self.structs[i].id),
            None => None,
        }
    }

    pub fn lookup_struct(&self, name: &String) -> (res: Option<&StructSymbol>)
        ensures
            match res {
                Some(s) => self@.lookup_struct(name@) == Some(s@),
                None => self@.lookup_struct(name@) is None,
            },
    {
        match self.struct_index(name) {
            Some(i) => if self.structs[i].defined {
                Some(&self.structs[i])
            } else {
                None
            },
            None => None,
        }
    }

    pub fn lookup_var(&self, name: &String) -> (res: Option<&VarSymbol>)
        ensures
            match res {
                Some(v) => self@.lookup_var(name@) == Some(v@),
                None => self@.lookup_var(name@) is None,
            },
    {
        let mut n: usize = self.scopes.len();
        while n > 0
            invariant
                n <= self.scopes.len(),
                self@.scopes.len() == self.scopes.len(),
                lookup_var_in(self@.scopes, name@, n as int) == self@.lookup_var(name@),
            decreases n,
        {
            let scope = &self.scopes[n - 1];
            let mut j: usize = 0;
            while j < scope.len()
                invariant
                    j <= scope.len(),
                    0 < n <= self.scopes.len(),
                    self@.scopes.len() == self.scopes.len(),
                    *scope == self.scopes@[n - 1],
                    self@.scopes[n - 1] == scope_view(scope@),
                    lookup_var_in(self@.scopes, name@, n as int) == self@.lookup_var(name@),
                    find_var(scope_view(scope@), name@, j as int) == find_var(scope_view(scope@), name@, 0),
                decreases scope.len() - j,
            {
                if same_text(&scope[j].name, name) {
                    return Some(&scope[j]);
                }
                j = j + 1;
            }
            n = n - 1;
        }
        None
    }

    /// Whether the innermost scope has a variable with the name.
    pub(crate) fn var_in_innermost(&self, name: &String) -> (res: bool)
        ensures
            res == self@.var_in_innermost(name@),
    {
        if self.scopes.len() == 0 {
            return false;
        }
        let scope = &self.scopes[self.scopes.len() - 1];
        let mut j: usize = 0;
        while j < scope.len()
            invariant
                j <= scope.len(),
                self.scopes.len() > 0,
                self@.scopes.len() == self.scopes.len(),
                *scope == self.scopes@.last(),
                self@.scopes.last() == scope_view(scope@),
                find_var(scope_view(scope@), name@, j as int) == find_var(scope_view(scope@), name@, 0),
            decreases scope.len() - j,
        {
            if same_text(&scope[j].name, name) {
                return true;
            }
            j = j + 1;
        }
        false
    }

    /// Adds a variable to the innermost scope and gives it the next id.
    pub(crate) fn add_var(&mut self, name: String, ty: Ty) -> (id: VarId)
        ensures
            final(self)@ == old(self)@.add_var(name@, ty@),
            id == VarId(old(self)@.next_local),
    {
        let id = VarId(self.cur_local_id);
        let ghost old_scopes = self.scopes@;
        let ghost var = SpecVarSymbol { name: name@, id, ty: ty@ };
        let sym = VarSymbol { name, id, ty };
        if self.scopes.len() == 0 {
            let mut scope: Vec<VarSymbol> = Vec::new();
            scope.push(sym);
            self.scopes.push(scope);
            assert(scope_view(self.scopes@[0]@) =~= seq![var]);
            assert(scopes_view(self.scopes@) =~= seq![seq![var]]);
        } else {
            let last = self.scopes.len() - 1;
            self.scopes[last].push(sym);
            assert(scope_view(self.scopes@[last as int]@) =~= scope_view(old_scopes[last as int]@).push(var));
            assert(scopes_view(self.scopes@) =~= scopes_view(old_scopes).update(
                last as int,
                scope_view(old_scopes[last as int]@).push(var),
            ));
        }
        self.cur_local_id = self.cur_local_id.wrapping_add(1);
        id
    }
}

} // verus!
