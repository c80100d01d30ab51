//! The types that semantic analysis gives to expressions.
use vstd::prelude::*;
use crate::common::op::BinOpKind;

verus! {

/// The index of a struct in the order the program declares its structs.
#[derive(Debug, Clone, Copy, PartialEq, Eq, Structural)]
pub struct StructId(pub u32);

/// A resolved type.
#[derive(Debug)]
pub enum Ty {
    Int,
    Float,
    Bool,
    Void,
    /// The type of a parameter written without one.
    Infer,
    Struct(StructId),
    Array(Box<Ty>),
    Func { params: Vec<Ty>, ret: Box<Ty> },
}

/// The mathematical model of a [`Ty`].
pub enum SpecTy {
    Int,
    Float,
    Bool,
    Void,
    Infer,
    Struct(StructId),
    Array(Box<SpecTy>),
    Func { params: Seq<SpecTy>, ret: Box<SpecTy> },
}

impl View for Ty {
    type V = SpecTy;

    open spec fn view(&self) -> SpecTy
        decreases self,
    {
        match self {
            Ty::Int => SpecTy::Int,
            Ty::Float => SpecTy::Float,
            Ty::Bool => SpecTy::Bool,
            Ty::Void => SpecTy::Void,
            Ty::Infer => SpecTy::Infer,
            Ty::Struct(id) => SpecTy::Struct(*id),
            Ty::Array(inner) => SpecTy::Array(Box::new((**inner)@)),
            Ty::Func { params, ret } => SpecTy::Func {
                params: tys_view(params@),
                ret: Box::new((**ret)@),
            },
        }
    }
}

pub open spec fn tys_view(s: Seq<Ty>) -> Seq<SpecTy>
    decreases s,
{
    if s.len() == 0 {
        Seq::empty()
    } else {
        seq![s[0]@] + tys_view(s.drop_first())
    }
}

pub proof fn lemma_tys_view(s: Seq<Ty>)
    ensures
        tys_view(s).len() == s.len(),
        forall|i: int| 0 <= i < s.len() ==> #[trigger] tys_view(s)[i] == s[i]@,
    decreases s.len(),
{
    if s.len() > 0 {
        lemma_tys_view(s.drop_first());
        assert(tys_view(s) == seq![s[0]@] + tys_view(s.drop_first()));
        assert forall|i: int| 0 <= i < s.len() implies #[trigger] tys_view(s)[i] == s[i]@ by {
            if i > 0 {
                assert(s.drop_first()[i - 1] == s[i]);
            }
        }
    }
}

pub proof fn lemma_tys_view_push(s: Seq<Ty>, x: Ty)
    ensures
        tys_view(s.push(x)) == tys_view(s).push(x@),
{
    lemma_tys_view(s);
    lemma_tys_view(s.push(x));
    assert(tys_view(s.push(x)) =~= tys_view(s).push(x@));
}

impl Ty {
    /// A copy of the type with the same model.
    #[verifier::loop_isolation(false)]
    pub fn duplicate(&self) -> (res: Ty)
        ensures
            res@ == self@,
        decreases self,
    {
        match self {
            Ty::Int => Ty::Int,
            Ty::Float => Ty::Float,
            Ty::Bool => Ty::Bool,
            Ty::Void => Ty::Void,
            Ty::Infer => Ty::Infer,
            Ty::Struct(id) => Ty::Struct(*id),
            Ty::Array(inner) => Ty::Array(Box::new((**inner).duplicate())),
            Ty::Func { params, ret } => {
                let mut out: Vec<Ty> = Vec::new();
                let mut i: usize = 0;
                proof {
                    lemma_tys_view(params@);
                }
                while i < params.len()
                    invariant
                        i <= params.len(),
                        tys_view(out@) == tys_view(params@).take(i as int),
                        tys_view(params@).len() == params.len(),
                        forall|j: int| 0 <= j < params.len() ==> #[trigger] tys_view(params@)[j] == params@[j]@,
                    decreases params.len() - i,
                {
                    assert(decreases_to!(*self => *params));
                    assert(decreases_to!(*params => params@));
                    assert(decreases_to!(params@ => params@[i as int]));
                    let t = params[i].duplicate();
                    proof {
                        lemma_tys_view_push(out@, t);
                        assert(tys_view(params@).take(i + 1) =~= tys_view(params@).take(i as int).push(t@));
                    }
                    out.push(t);
                    i = i + 1;
                }
                assert(tys_view(params@).take(params.len() as int) =~= tys_view(params@));
                Ty::Func { params: out, ret: Box::new((**ret).duplicate()) }
            },
        }
    }

    /// Whether two types are the same type.
    #[verifier::loop_isolation(false)]
    pub fn same(&self, other: &Ty) -> (res: bool)
        ensures
            res == (self@ == other@),
        decreases self,
    {
        match (self, other) {
            (Ty::Int, Ty::Int) | (Ty::Float, Ty::Float) | (Ty::Bool, Ty::Bool) | (Ty::Void, Ty::Void)
            | (Ty::Infer, Ty::Infer) => true,
            (Ty::Struct(a), Ty::Struct(b)) => a.0 == b.0,
            (Ty::Array(a), Ty::Array(b)) => (**a).same(&**b),
            (Ty::Func { params: pa, ret: ra }, Ty::Func { params: pb, ret: rb }) => {
                proof {
                    lemma_tys_view(pa@);
                    lemma_tys_view(pb@);
                }
                if pa.len() != pb.len() {
                    return false;
                }
                let mut i: usize = 0;
                while i < pa.len()
                    invariant
                        i <= pa.len(),
                        pa.len() == pb.len(),
                        tys_view(pa@).len() == pa.len(),
                        tys_view(pb@).len() == pb.len(),
                        forall|j: int| 0 <= j < pa.len() ==> #[trigger] tys_view(pa@)[j] == pa@[j]@,
                        forall|j: int| 0 <= j < pb.len() ==> #[trigger] tys_view(pb@)[j] == pb@[j]@,
                        forall|j: int| 0 <= j < i ==> tys_view(pa@)[j] == tys_view(pb@)[j],
                    decreases pa.len() - i,
                {
                    assert(decreases_to!(*self => *pa));
                    assert(decreases_to!(*pa => pa@));
                    assert(decreases_to!(pa@ => pa@[i as int]));
                    if !pa[i].same(&pb[i]) {
                        assert(tys_view(pa@)[i as int] != tys_view(pb@)[i as int]);
                        return false;
                    }
                    i = i + 1;
                }
                assert(tys_view(pa@) =~= tys_view(pb@));
                (**ra).same(&**rb)
            },
            _ => false,
        }
    }
}

/// The type of `left op right`, when the operator applies to those types.
///
/// Arithmetic takes two `Int`s or two `Float`s and gives the same type;
/// an ordering takes two `Int`s or two `Float`s and gives `Bool`; `==` and
/// `!=` take two values of the same type among `Int`, `Float` and `Bool`
/// and give `Bool`; `and` and `or` take two `Bool`s.
pub open spec fn spec_bin_op_ty(op: BinOpKind, left: SpecTy, right: SpecTy) -> Option<SpecTy> {
    let numeric = (left is Int && right is Int) || (left is Float && right is Float);
    let both_bool = left is Bool && right is Bool;
    match op {
        BinOpKind::Add | BinOpKind::Sub | BinOpKind::Mul | BinOpKind::Div => if numeric {
            Some(left)
        } else {
            None
        },
        BinOpKind::Lt | BinOpKind::Gt | BinOpKind::LtEq | BinOpKind::GtEq => if numeric {
            Some(SpecTy::Bool)
        } else {
            None
        },
        BinOpKind::EqEq | BinOpKind::NotEq => if numeric || both_bool {
            Some(SpecTy::Bool)
        } else {
            None
        },
        BinOpKind::And | BinOpKind::Or => if both_bool {
            Some(SpecTy::Bool)
        } else {
            None
        },
    }
}

pub open spec fn opt_ty_view(t: Option<Ty>) -> Option<SpecTy> {
    match t {
        Some(t) => Some(t@),
        None => None,
    }
}

/// The type of `left op right`; `None` when the operator does not apply.
pub fn bin_op_ty(op: BinOpKind, left: &Ty, right: &Ty) -> (res: Option<Ty>)
    ensures
        opt_ty_view(res) == spec_bin_op_ty(op, left@, right@),
{
    let numeric = (matches!(left, Ty::Int) && matches!(right, Ty::Int)) || (matches!(
        left,
        Ty::Float
    ) && matches!(right, Ty::Float));
    let both_bool = matches!(left, Ty::Bool) && matches!(right, Ty::Bool);
    match op {
        BinOpKind::Add | BinOpKind::Sub | BinOpKind::Mul | BinOpKind::Div => if numeric {
            Some(left.duplicate())
        } else {
            None
        },
        BinOpKind::Lt | BinOpKind::Gt | BinOpKind::LtEq | BinOpKind::GtEq => if numeric {
            Some(Ty::Bool)
        } else {
            None
        },
        BinOpKind::EqEq | BinOpKind::NotEq => if numeric || both_bool {
            Some(Ty::Bool)
        } else {
            None
        },
        BinOpKind::And | BinOpKind::Or => if both_bool {
            Some(Ty::Bool)
        } else {
            None
        },
    }
}

} // verus!
