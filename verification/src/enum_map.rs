use crate::objects::lemma_variable_index_injective;
use crate::objects::Variable;
use vstd::prelude::*;

verus! {

/// A total map from the variables to values of type `T`, with one slot per
/// variable, so that reading and changing a single entry is cheap.
pub struct EnumMap<T> {
    slots: [T; 20],
}

impl<T> View for EnumMap<T> {
    type V = Map<Variable, T>;

    closed spec fn view(&self) -> Map<Variable, T> {
        Map::new(|key: Variable| true, |key: Variable| self.slots@[key.spec_index()])
    }
}

impl<T: Copy> EnumMap<T> {
    /// The map that sends every variable to what `mapping` returns for it.
    pub fn new<M>(mapping: M) -> (map: EnumMap<T>) where M: Fn(Variable) -> T
        requires
            forall|key: Variable| call_requires(mapping, (key,)),
        ensures
            map@.dom().is_full(),
            forall|key: Variable| call_ensures(mapping, (key,), #[trigger] map@[key]),
    {
        let slots: [T; 20] = [
            mapping(Variable::Ans),
            mapping(Variable::PrevAns),
            mapping(Variable::A),
            mapping(Variable::B),
            mapping(Variable::C),
            mapping(Variable::D),
            mapping(Variable::Ias),
            mapping(Variable::Tas),
            mapping(Variable::Altitude),
            mapping(Variable::Altimeter),
            mapping(Variable::Temp),
            mapping(Variable::DensAlt),
            mapping(Variable::PressAlt),
            mapping(Variable::WindDir),
            mapping(Variable::WindSpeed),
            mapping(Variable::Heading),
            mapping(Variable::HeadWind),
            mapping(Variable::CrossWind),
            mapping(Variable::DevAngl),
            mapping(Variable::GrdSpd),
        ];
        let map = EnumMap { slots };
        assert(map@.dom() =~= Set::full());
        map
    }

    /// The value of `key`. Every variable has one.
    pub fn get(&self, key: Variable) -> (value: T)
        ensures
            self@.dom().is_full(),
            value == self@[key],
    {
        assert(self@.dom() =~= Set::full());
        self.slots[key.index()]
    }

    /// Overwrites the value of `key` and leaves every other value alone.
    pub fn set(&mut self, key: Variable, value: T)
        ensures
            final(self)@ == old(self)@.insert(key, value),
    {
        self.slots[key.index()] = value;
        proof {
            assert forall|other: Variable| #[trigger] final(self)@[other] == old(self)@.insert(key, value)[other] by {
                lemma_variable_index_injective(key, other);
            }
            assert(final(self)@ =~= old(self)@.insert(key, value));
        }
    }
}

impl<T: Copy> Clone for EnumMap<T> {
    fn clone(&self) -> (copy: EnumMap<T>)
        ensures
            copy@ == self@,
    {
        EnumMap { slots: self.slots }
    }
}

} // verus!
