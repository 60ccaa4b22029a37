use vstd::prelude::*;
use crate::error::ZkError;
use crate::field::FieldElem;

verus! {

/// Whether a variable is known only to the prover or to everyone.
#[derive(Clone, Copy, Debug, PartialEq, Eq, Structural)]
pub enum Role {
    Witness,
    Public,
}

/// How a constraint system is being built: for its shape only, when keys are derived,
/// or with every value, when a proof is produced.
#[derive(Clone, Copy, Debug, PartialEq, Eq, Structural)]
pub enum Mode {
    Setup,
    Prove,
}

/// One allocated variable: its role and, when building concretely, its value.
#[derive(Clone, Copy, Debug)]
pub struct Variable {
    pub role: Role,
    pub value: Option<FieldElem>,
}

/// An append-only collection of variables and of equalities between them.
#[derive(Debug)]
pub struct ConstraintSystem {
    mode: Mode,
    variables: Vec<Variable>,
    equalities: Vec<(usize, usize)>,
}

/// Whether every equality relates two assigned variables with equal values.
pub open spec fn equalities_hold(values: Seq<Option<FieldElem>>, eqs: Seq<(usize, usize)>) -> bool {
    forall|k: int|
        0 <= k < eqs.len() ==> {
            let (a, b) = #[trigger] eqs[k];
            &&& values[a as int] is Some
            &&& values[b as int] is Some
            &&& values[a as int]->0 == values[b as int]->0
        }
}

impl ConstraintSystem {
    pub closed spec fn mode_spec(&self) -> Mode {
        self.mode
    }

    /// The roles of the variables, in the order they were allocated.
    pub closed spec fn roles(&self) -> Seq<Role> {
        self.variables@.map_values(|v: Variable| v.role)
    }

    /// The values of the variables, in the order they were allocated.
    pub closed spec fn values(&self) -> Seq<Option<FieldElem>> {
        self.variables@.map_values(|v: Variable| v.value)
    }

    /// The equalities, as pairs of variable handles, in the order they were added.
    pub closed spec fn equalities(&self) -> Seq<(usize, usize)> {
        self.equalities@
    }

    /// Handles name allocated variables; a shape holds no values, a concrete system
    /// holds all of them.
    pub open spec fn wf(&self) -> bool {
        &&& self.values().len() == self.roles().len()
        &&& forall|k: int|
            0 <= k < self.equalities().len() ==> {
                let (a, b) = #[trigger] self.equalities()[k];
                a < self.roles().len() && b < self.roles().len()
            }
        &&& forall|i: int|
            0 <= i < self.values().len() ==> (#[trigger] self.values()[i] is Some) == (
            self.mode_spec() == Mode::Prove)
        &&& forall|i: int|
            0 <= i < self.values().len() && self.values()[i] is Some ==> (
            #[trigger] self.values()[i])->0.wf()
    }

    /// An empty system built in the given mode.
    pub fn new(mode: Mode) -> (r: ConstraintSystem)
        ensures
            r.wf(),
            r.mode_spec() == mode,
            r.roles() == Seq::<Role>::empty(),
            r.values() == Seq::<Option<FieldElem>>::empty(),
            r.equalities() == Seq::<(usize, usize)>::empty(),
    {
        let r = ConstraintSystem { mode, variables: Vec::new(), equalities: Vec::new() };
        assert(r.roles() =~= Seq::<Role>::empty());
        assert(r.values() =~= Seq::<Option<FieldElem>>::empty());
        r
    }

    pub fn mode(&self) -> (r: Mode)
        ensures
            r == self.mode_spec(),
    {
        self.mode
    }

    pub fn num_variables(&self) -> (r: usize)
        requires
            self.wf(),
        ensures
            r == self.roles().len(),
    {
        self.variables.len()
    }

    pub fn num_equalities(&self) -> (r: usize)
        ensures
            r == self.equalities().len(),
    {
        self.equalities.len()
    }

    /// The variable with the given handle.
    pub fn variable(&self, i: usize) -> (r: Variable)
        requires
            self.wf(),
            i < self.roles().len(),
        ensures
            r.role == self.roles()[i as int],
            r.value == self.values()[i as int],
    {
        self.variables[i]
    }

    /// The equality at the given position, as a pair of handles.
    pub fn equality(&self, k: usize) -> (r: (usize, usize))
        requires
            k < self.equalities().len(),
        ensures
            r == self.equalities()[k as int],
    {
        self.equalities[k]
    }

    /// Allocates a variable with the given role. While building a shape the value is not
    /// looked at and the variable stays unassigned. While building concretely an absent
    /// value fails with `AssignmentMissing` and leaves the system as it was.
    /// On success the handle is the variable's position.
    pub fn allocate(&mut self, role: Role, value: Option<FieldElem>) -> (r: Result<usize, ZkError>)
        requires
            old(self).wf(),
            value matches Some(v) ==> v.wf(),
            old(self).roles().len() < usize::MAX,
        ensures
            final(self).wf(),
            final(self).mode_spec() == old(self).mode_spec(),
            final(self).equalities() == old(self).equalities(),
            old(self).mode_spec() == Mode::Prove && value is None ==> r == Err::<usize, ZkError>(
                ZkError::AssignmentMissing) && final(self).roles() == old(self).roles()
                && final(self).values() == old(self).values(),
            old(self).mode_spec() == Mode::Setup || value is Some ==> r == Ok::<usize, ZkError>(
                old(self).roles().len() as usize) && final(self).roles() == old(self).roles().push(
                role) && final(self).values() == old(self).values().push(
                if old(self).mode_spec() == Mode::Setup {
                    None::<FieldElem>
                } else {
                    value
                },
            ),
    {
        let stored = match self.mode {
            Mode::Setup => None,
            Mode::Prove => {
                if value.is_none() {
                    return Err(ZkError::AssignmentMissing);
                }
                value
            },
        };
        let handle = self.variables.len();
        self.variables.push(Variable { role, value: stored });
        assert(self.roles() =~= old(self).roles().push(role));
        assert(self.values() =~= old(self).values().push(stored));
        assert forall|i: int|
            0 <= i < self.values().len() implies (#[trigger] self.values()[i] is Some) == (
            self.mode_spec() == Mode::Prove) by {
            if i < old(self).values().len() {
                assert(self.values()[i] == old(self).values()[i]);
            }
        }
        assert forall|i: int|
            0 <= i < self.values().len() && self.values()[i] is Some implies (
            #[trigger] self.values()[i])->0.wf() by {
            if i < old(self).values().len() {
                assert(self.values()[i] == old(self).values()[i]);
            }
        }
        assert forall|k: int| 0 <= k < self.equalities().len() implies {
            let (a, b) = #[trigger] self.equalities()[k];
            a < self.roles().len() && b < self.roles().len()
        } by {
            assert(self.equalities()[k] == old(self).equalities()[k]);
        }
        Ok(handle)
    }

    /// Adds the constraint that two allocated variables are equal.
    pub fn enforce_equal(&mut self, a: usize, b: usize)
        requires
            old(self).wf(),
            a < old(self).roles().len(),
            b < old(self).roles().len(),
        ensures
            final(self).wf(),
            final(self).mode_spec() == old(self).mode_spec(),
            final(self).roles() == old(self).roles(),
            final(self).values() == old(self).values(),
            final(self).equalities() == old(self).equalities().push((a, b)),
    {
        self.equalities.push((a, b));
        assert forall|k: int| 0 <= k < self.equalities().len() implies {
            let (x, y) = #[trigger] self.equalities()[k];
            x < self.roles().len() && y < self.roles().len()
        } by {
            if k < old(self).equalities().len() {
                assert(self.equalities()[k] == old(self).equalities()[k]);
            }
        }
    }

    /// Evaluates the system on its values: whether every equality holds. A shape has no
    /// values to evaluate and fails with `AssignmentMissing`.
    pub fn is_satisfied(&self) -> (r: Result<bool, ZkError>)
        requires
            self.wf(),
        ensures
            self.mode_spec() == Mode::Setup ==> r == Err::<bool, ZkError>(ZkError::AssignmentMissing),
            self.mode_spec() == Mode::Prove ==> r == Ok::<bool, ZkError>(
                equalities_hold(self.values(), self.equalities())),
    {
        if self.mode == Mode::Setup {
            return Err(ZkError::AssignmentMissing);
        }
        let mut k: usize = 0;
        while k < self.equalities.len()
            invariant
                self.wf(),
                self.mode_spec() == Mode::Prove,
                k <= self.equalities@.len(),
                equalities_hold(self.values(), self.equalities().take(k as int)),
            decreases self.equalities@.len() - k,
        {
            let (a, b) = self.equalities[k];
            assert(self.equalities()[k as int] == (a, b));
            assert(self.values()[a as int] == self.variables@[a as int].value);
            assert(self.values()[b as int] == self.variables@[b as int].value);
            let va = self.variables[a].value;
            let vb = self.variables[b].value;
            match (va, vb) {
                (Some(x), Some(y)) => {
                    if x != y {
                        assert(!equalities_hold(self.values(), self.equalities()));
                        return Ok(false);
                    }
                },
                _ => {
                    assert(false);
                },
            }
            assert(self.equalities().take(k + 1) =~= self.equalities().take(k as int).push((a, b)));
            k = k + 1;
        }
        assert(self.equalities().take(k as int) =~= self.equalities());
        Ok(true)
    }

    /// The values of the public variables, in the order they were allocated. A shape has
    /// no values and fails with `AssignmentMissing`.
    pub fn public_values(&self) -> (r: Result<Vec<FieldElem>, ZkError>)
        requires
            self.wf(),
        ensures
            self.mode_spec() == Mode::Setup ==> r == Err::<Vec<FieldElem>, ZkError>(
                ZkError::AssignmentMissing),
            self.mode_spec() == Mode::Prove ==> (r matches Ok(v) && v@ == public_values_of(
                self.roles(),
                self.values(),
            )),
    {
        if self.mode == Mode::Setup {
            return Err(ZkError::AssignmentMissing);
        }
        let mut out: Vec<FieldElem> = Vec::new();
        let mut i: usize = 0;
        while i < self.variables.len()
            invariant
                self.wf(),
                self.mode_spec() == Mode::Prove,
                i <= self.variables@.len(),
                out@ == public_values_of(self.roles().take(i as int), self.values().take(i as int)),
            decreases self.variables@.len() - i,
        {
            let v = self.variables[i];
            assert(self.roles().take(i + 1) =~= self.roles().take(i as int).push(v.role));
            assert(self.values().take(i + 1) =~= self.values().take(i as int).push(v.value));
            assert(self.roles().take(i + 1).drop_last() =~= self.roles().take(i as int));
            assert(self.values().take(i + 1).drop_last() =~= self.values().take(i as int));
            if v.role == Role::Public {
                match v.value {
                    Some(x) => {
                        out.push(x);
                    },
                    None => {
                        assert(self.values()[i as int] is Some);
                    },
                }
            }
            i = i + 1;
        }
        assert(self.roles().take(i as int) =~= self.roles());
        assert(self.values().take(i as int) =~= self.values());
        Ok(out)
    }
}

/// The values of the public variables, in order, of a fully assigned system.
pub open spec fn public_values_of(roles: Seq<Role>, values: Seq<Option<FieldElem>>) -> Seq<FieldElem>
    decreases roles.len(),
{
    if roles.len() == 0 {
        Seq::empty()
    } else {
        let rest = public_values_of(roles.drop_last(), values.drop_last());
        if roles.last() == Role::Public {
            rest.push(values.last()->0)
        } else {
            rest
        }
    }
}

} // verus!
