//! LLVM IR text of a whole program: the module header, struct types,
//! string globals, runtime declarations and function definitions.

use vstd::prelude::*;

use crate::codegen::analysis::{insert_string, string_map};
use crate::codegen::function::{function_info_for, function_text};
use crate::codegen::instructions::{FunctionInfo, ProgramInfo};
use crate::codegen::llvm_text::{llvm_type, TextCodeGen, TextCodeGenError};
use crate::codegen::module_text::{
    header_text, is_order_of, sorted_by_name, string_globals_text, struct_types_text, RUNTIME_DECLARATIONS,
};
use crate::codegen::names::{insert_type, type_map, NameMap};
use crate::codegen::strings::{program_strings, table_lists};
use crate::codegen::terminator::{struct_field_count, tuple_type_text};
use crate::mir::{MirFunction, MirProgram, MirType};

verus! {

/// The counts of a map of counts, by name.
pub open spec fn usize_map(m: NameMap<usize>) -> Map<Seq<char>, usize> {
    Map::new(|k: Seq<char>| m.lookup(k) is Some, |k: Seq<char>| m.lookup(k)->0)
}

/// The type lists of a map of type lists, by name.
pub open spec fn types_map(m: NameMap<Vec<&'static str>>) -> Map<Seq<char>, Seq<Seq<char>>> {
    Map::new(
        |k: Seq<char>| m.lookup(k) is Some,
        |k: Seq<char>| m.lookup(k)->0@.map_values(|t: &'static str| t@),
    )
}

/// The LLVM return type of each of the first `n` functions (a later one
/// of the same name overriding).
pub open spec fn ret_types_of(fs: Seq<MirFunction>, n: int) -> Map<Seq<char>, Seq<char>>
    decreases n,
{
    if n <= 0 {
        Map::empty()
    } else {
        ret_types_of(fs, n - 1).insert(fs[n - 1].name@, llvm_type(fs[n - 1].ret_ty))
    }
}

/// The LLVM parameter types of each of the first `n` functions.
pub open spec fn param_types_of(fs: Seq<MirFunction>, n: int) -> Map<Seq<char>, Seq<Seq<char>>>
    decreases n,
{
    if n <= 0 {
        Map::empty()
    } else {
        param_types_of(fs, n - 1).insert(
            fs[n - 1].name@,
            fs[n - 1].params@.map_values(|p: (String, MirType)| llvm_type(p.1)),
        )
    }
}

/// The field count of each of the first `n` functions whose struct
/// result has at least `lo` and at most `hi` fields.
pub open spec fn struct_returns_of(fs: Seq<MirFunction>, n: int, lo: nat, hi: nat) -> Map<Seq<char>, usize>
    decreases n,
{
    if n <= 0 {
        Map::empty()
    } else {
        let k = struct_field_count(fs[n - 1].ret_ty);
        let m = struct_returns_of(fs, n - 1, lo, hi);
        if lo <= k <= hi {
            m.insert(fs[n - 1].name@, k as usize)
        } else {
            m
        }
    }
}

/// The tuple aggregate type of each of the first `n` functions returning a
/// tuple.
pub open spec fn tuple_returns_of(fs: Seq<MirFunction>, n: int) -> Map<Seq<char>, Seq<char>>
    decreases n,
{
    if n <= 0 {
        Map::empty()
    } else {
        let m = tuple_returns_of(fs, n - 1);
        match fs[n - 1].ret_ty {
            MirType::Tuple(elems) => m.insert(fs[n - 1].name@, tuple_type_text(elems@)),
            _ => m,
        }
    }
}

/// The LLVM field types of each of the first `n` struct definitions.
pub open spec fn field_types_of(defs: Seq<(String, Vec<(String, MirType)>)>, n: int) -> Map<Seq<char>, Seq<Seq<char>>>
    decreases n,
{
    if n <= 0 {
        Map::empty()
    } else {
        field_types_of(defs, n - 1).insert(
            defs[n - 1].0@,
            defs[n - 1].1@.map_values(|f: (String, MirType)| llvm_type(f.1)),
        )
    }
}

/// What the code generator knows of a whole program, as `prog` holds it.
pub open spec fn program_info_for(program: MirProgram, prog: ProgramInfo) -> bool {
    let fs = program.functions@;
    let n = fs.len() as int;
    &&& table_lists(prog.string_table, program_strings(program))
    &&& type_map(prog.fn_return_types) == ret_types_of(fs, n)
    &&& types_map(prog.fn_param_types) == param_types_of(fs, n)
    &&& usize_map(prog.sret_functions) == struct_returns_of(fs, n, 3, usize::MAX as nat)
    &&& usize_map(prog.small_struct_functions) == struct_returns_of(fs, n, 1, 2)
    &&& string_map(prog.tuple_functions) == tuple_returns_of(fs, n)
    &&& types_map(prog.struct_field_types) == field_types_of(program.struct_defs@, program.struct_defs@.len() as int)
}

/// The definitions of the first `n` functions, given what is worked out
/// about each.
pub open spec fn functions_text(fs: Seq<MirFunction>, prog: ProgramInfo, infos: Seq<FunctionInfo>, n: int) -> Seq<char>
    decreases n,
{
    if n <= 0 {
        Seq::empty()
    } else {
        functions_text(fs, prog, infos, n - 1) + function_text(fs[n - 1], prog, infos[n - 1])
    }
}

/// What generating a program gives, given what is worked out about the
/// program (`prog`) and each of its functions (`infos`) and the order of
/// its struct definitions: the module header, the struct types in that
/// order, the string globals, the runtime declarations and each function's
/// definition.
pub open spec fn generation(
    program: MirProgram,
    triple: Seq<char>,
    prog: ProgramInfo,
    order: Seq<int>,
    infos: Seq<FunctionInfo>,
    r: Result<String, TextCodeGenError>,
) -> bool {
    &&& program_info_for(program, prog)
    &&& is_order_of(order, program.struct_defs@.len())
    &&& sorted_by_name(program.struct_defs@, order)
    &&& infos.len() == program.functions@.len()
    &&& forall|i: int| 0 <= i < infos.len() ==> function_info_for(program.functions@[i], prog, #[trigger] infos[i])
    &&& r matches Ok(s) && s@ == header_text(triple) + struct_types_text(program.struct_defs@, order)
        + string_globals_text(prog.string_table.entries@) + RUNTIME_DECLARATIONS@ + functions_text(
        program.functions@,
        prog,
        infos,
        infos.len() as int,
    )
}

/// Storing a count in a map of counts.
fn insert_count(m: &mut NameMap<usize>, k: &str, v: usize)
    ensures
        usize_map(*final(m)) == usize_map(*old(m)).insert(k@, v),
{
    m.insert(k, v);
    assert(usize_map(*m) =~= usize_map(*old(m)).insert(k@, v));
}

impl TextCodeGen {
    /// The LLVM types of the fields of `fields`, in order.
    fn field_types(&self, fields: &Vec<(String, MirType)>) -> (r: Vec<&'static str>)
        ensures
            r@.map_values(|t: &'static str| t@) == fields@.map_values(|f: (String, MirType)| llvm_type(f.1)),
    {
        let mut r: Vec<&'static str> = Vec::new();
        let mut k: usize = 0;
        while k < fields.len()
            invariant
                k <= fields.len(),
                r@.len() == k,
                forall|j: int| 0 <= j < k ==> #[trigger] r@[j]@ == llvm_type(fields@[j].1),
            decreases fields.len() - k,
        {
            r.push(self.mir_type_to_llvm(&fields[k].1));
            k = k + 1;
        }
        assert(r@.map_values(|t: &'static str| t@) =~= fields@.map_values(|f: (String, MirType)| llvm_type(f.1)));
        r
    }

    /// The LLVM field types of each struct definition.
    fn struct_field_types(&self, defs: &Vec<(String, Vec<(String, MirType)>)>) -> (m: NameMap<Vec<&'static str>>)
        ensures
            types_map(m) == field_types_of(defs@, defs@.len() as int),
    {
        let mut m: NameMap<Vec<&'static str>> = NameMap::new();
        assert(types_map(m) =~= Map::<Seq<char>, Seq<Seq<char>>>::empty());
        let mut i: usize = 0;
        while i < defs.len()
            invariant
                i <= defs.len(),
                types_map(m) == field_types_of(defs@, i as int),
            decreases defs.len() - i,
        {
            let ts = self.field_types(&defs[i].1);
            let ghost before = types_map(m);
            let ghost tv = ts@.map_values(|t: &'static str| t@);
            m.insert(defs[i].0.as_str(), ts);
            assert(types_map(m) =~= before.insert(defs@[i as int].0@, tv));
            i = i + 1;
        }
        m
    }

    /// What the code generator knows of a whole program: its string table,
    /// and the return types, parameter types and struct or tuple results of
    /// its functions.
    pub fn program_info(&self, program: &MirProgram) -> (prog: ProgramInfo)
        ensures
            program_info_for(*program, prog),
    {
        let string_table = self.collect_string_constants(program);
        let fs = &program.functions;
        let mut fn_return_types: NameMap<&'static str> = NameMap::new();
        let mut fn_param_types: NameMap<Vec<&'static str>> = NameMap::new();
        let mut sret_functions: NameMap<usize> = NameMap::new();
        let mut small_struct_functions: NameMap<usize> = NameMap::new();
        let mut tuple_functions: NameMap<String> = NameMap::new();
        assert(type_map(fn_return_types) =~= Map::<Seq<char>, Seq<char>>::empty());
        assert(types_map(fn_param_types) =~= Map::<Seq<char>, Seq<Seq<char>>>::empty());
        assert(usize_map(sret_functions) =~= Map::<Seq<char>, usize>::empty());
        assert(usize_map(small_struct_functions) =~= Map::<Seq<char>, usize>::empty());
        assert(string_map(tuple_functions) =~= Map::<Seq<char>, Seq<char>>::empty());
        let mut i: usize = 0;
        while i < fs.len()
            invariant
                i <= fs.len(),
                type_map(fn_return_types) == ret_types_of(fs@, i as int),
                types_map(fn_param_types) == param_types_of(fs@, i as int),
                usize_map(sret_functions) == struct_returns_of(fs@, i as int, 3, usize::MAX as nat),
                usize_map(small_struct_functions) == struct_returns_of(fs@, i as int, 1, 2),
                string_map(tuple_functions) == tuple_returns_of(fs@, i as int),
            decreases fs.len() - i,
        {
            let f = &fs[i];
            let name = f.name.as_str();
            insert_type(&mut fn_return_types, name, self.mir_type_to_llvm(&f.ret_ty));
            let mut pts: Vec<&'static str> = Vec::new();
            let mut k: usize = 0;
            while k < f.params.len()
                invariant
                    k <= f.params.len(),
                    pts@.len() == k,
                    pts@.map_values(|t: &'static str| t@) == f.params@.subrange(0, k as int).map_values(
                        |p: (String, MirType)| llvm_type(p.1),
                    ),
                decreases f.params.len() - k,
            {
                let ghost prev = pts@;
                pts.push(self.mir_type_to_llvm(&f.params[k].1));
                assert(f.params@.subrange(0, k + 1) =~= f.params@.subrange(0, k as int).push(f.params@[k as int]));
                assert forall|j: int| 0 <= j < k implies pts@[j]@ == llvm_type(f.params@[j].1) by {
                    assert(prev.map_values(|t: &'static str| t@)[j] == f.params@.subrange(0, k as int).map_values(
                        |p: (String, MirType)| llvm_type(p.1),
                    )[j]);
                }
                k = k + 1;
                assert(pts@.map_values(|t: &'static str| t@) =~= f.params@.subrange(0, k as int).map_values(
                    |p: (String, MirType)| llvm_type(p.1),
                ));
            }
            assert(f.params@.subrange(0, f.params@.len() as int) =~= f.params@);
            let ghost before = types_map(fn_param_types);
            fn_param_types.insert(name, pts);
            assert(types_map(fn_param_types) =~= before.insert(
                name@,
                f.params@.map_values(|p: (String, MirType)| llvm_type(p.1)),
            ));
            match &f.ret_ty {
                MirType::Struct { fields, .. } => {
                    let n = fields.len();
                    if n > 2 {
                        insert_count(&mut sret_functions, name, n);
                    } else if n > 0 {
                        insert_count(&mut small_struct_functions, name, n);
                    }
                },
                MirType::Tuple(elems) => {
                    let mut tt = String::new();
                    crate::codegen::terminator::append_tuple_type(&mut tt, elems, self);
                    insert_string(&mut tuple_functions, name, tt.as_str());
                },
                _ => {},
            }
            i = i + 1;
        }
        let struct_field_types = self.struct_field_types(&program.struct_defs);
        ProgramInfo {
            string_table,
            fn_return_types,
            fn_param_types,
            sret_functions,
            small_struct_functions,
            tuple_functions,
            struct_field_types,
        }
    }

    /// Generates the LLVM IR text of a program: the module header, the
    /// struct types sorted by name, the string globals, the runtime
    /// declarations and each function's definition.
    pub fn generate(&self, program: &MirProgram) -> (r: Result<String, TextCodeGenError>)
        ensures
            exists|prog: ProgramInfo, order: Seq<int>, infos: Seq<FunctionInfo>|
                #[trigger] generation(*program, self.target_triple@, prog, order, infos, r),
    {
        let mut out = String::new();
        self.emit_header(&mut out);
        let prog = self.program_info(program);
        self.emit_struct_types(&mut out, &program.struct_defs);
        let ghost o1 = out@;
        let ghost order = choose|order: Seq<int>|
            is_order_of(order, program.struct_defs@.len()) && sorted_by_name(program.struct_defs@, order) && o1
                == header_text(self.target_triple@) + struct_types_text(program.struct_defs@, order);
        self.emit_string_globals(&mut out, &prog.string_table);
        self.emit_runtime_declarations(&mut out);
        let ghost o2 = out@;
        let ghost mut infos: Seq<FunctionInfo> = Seq::empty();
        let fs = &program.functions;
        let mut i: usize = 0;
        while i < fs.len()
            invariant
                i <= fs.len(),
                fs@ == program.functions@,
                program_info_for(*program, prog),
                is_order_of(order, program.struct_defs@.len()),
                sorted_by_name(program.struct_defs@, order),
                infos.len() == i,
                forall|j: int| 0 <= j < i ==> function_info_for(fs@[j], prog, #[trigger] infos[j]),
                out@ == o2 + functions_text(fs@, prog, infos, i as int),
            decreases fs.len() - i,
        {
            let ghost before = out@;
            let _ = self.emit_function_with_strings(&mut out, &fs[i], &prog);
            let ghost info = choose|info: FunctionInfo|
                function_info_for(fs@[i as int], prog, info) && out@ == before + function_text(fs@[i as int], prog, info);
            proof {
                lemma_functions_text_prefix(fs@, prog, infos, info, i as int);
                assert forall|j: int| 0 <= j < i + 1 implies function_info_for(fs@[j], prog, #[trigger] infos.push(info)[j]) by {
                    if j < i {
                        assert(infos.push(info)[j] == infos[j]);
                    }
                }
                infos = infos.push(info);
            }
            assert(out@ =~= o2 + functions_text(fs@, prog, infos, i + 1));
            i = i + 1;
        }
        let r = Ok(out);
        assert(generation(*program, self.target_triple@, prog, order, infos, r));
        r
    }
}

/// Extending what is worked out about the first `i` functions by the
/// `i`-th function's info extends their text by its definition.
pub proof fn lemma_functions_text_prefix(
    fs: Seq<MirFunction>,
    prog: ProgramInfo,
    infos: Seq<FunctionInfo>,
    info: FunctionInfo,
    i: int,
)
    requires
        0 <= i,
        infos.len() == i,
    ensures
        functions_text(fs, prog, infos.push(info), i + 1) == functions_text(fs, prog, infos, i) + function_text(
            fs[i],
            prog,
            info,
        ),
{
    lemma_functions_text_same(fs, prog, infos, infos.push(info), i);
}

/// The text of the first `n` functions depends on the first `n` infos
/// alone.
pub proof fn lemma_functions_text_same(
    fs: Seq<MirFunction>,
    prog: ProgramInfo,
    a: Seq<FunctionInfo>,
    b: Seq<FunctionInfo>,
    n: int,
)
    requires
        0 <= n <= a.len(),
        n <= b.len(),
        forall|j: int| 0 <= j < n ==> a[j] == b[j],
    ensures
        functions_text(fs, prog, a, n) == functions_text(fs, prog, b, n),
    decreases n,
{
    if n > 0 {
        lemma_functions_text_same(fs, prog, a, b, n - 1);
    }
}

} // verus!
