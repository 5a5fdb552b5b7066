//! Reading typed values out of JSON values, and writing them into JSON values.
//!
//! What a JSON value holds of a type is a specification function of the
//! type, [`FromJson::decode`]; the function that reads, [`FromJson::from_json`],
//! is proved to return just that. A record is read from an object, each of
//! its fields from the member under the field's key. A field that has to be
//! there is a mismatch where the member is missing; a field that may be
//! missing is absent where the member is missing or null. Of several
//! mismatches the one of the first field, in the order of the record, is
//! reported, with the path to the part that does not fit.

use vstd::prelude::*;
use crate::account::{is_account, Account};
use crate::decimal::{is_decimal, Decimal};
use crate::integer::{is_integer_literal, literal_i64, literal_u64, parse_i64, parse_u64, Integer};
use crate::json::{items_model, lemma_array_model, Json, JsonModel};

verus! {

/// One step on the way from a JSON value to one of its parts.
#[derive(Debug, PartialEq, Eq)]
pub enum Step {
    /// Into the member of an object with this key.
    Field(String),
    /// Into the item of an array at this position.
    Index(usize),
}

/// Mathematical model of a [`Step`].
pub ghost enum StepModel {
    Field(Seq<char>),
    Index(int),
}

impl View for Step {
    type V = StepModel;

    open spec fn view(&self) -> StepModel {
        match self {
            Step::Field(key) => StepModel::Field(key@),
            Step::Index(position) => StepModel::Index(*position as int),
        }
    }
}

/// A JSON value does not have the shape that a type asks for. The path leads
/// from the value that was to be read to the part that does not fit.
#[derive(Debug, PartialEq, Eq)]
pub struct ShapeMismatch {
    pub path: Vec<Step>,
}

/// Mathematical model of a [`ShapeMismatch`].
pub ghost struct MismatchModel {
    pub path: Seq<StepModel>,
}

impl MismatchModel {
    /// The value itself does not fit.
    pub open spec fn here() -> MismatchModel {
        MismatchModel { path: Seq::empty() }
    }

    /// The same mismatch, seen from the value one step further out.
    pub open spec fn under(self, step: StepModel) -> MismatchModel {
        MismatchModel { path: seq![step] + self.path }
    }

    /// The member under `key` is missing or does not fit.
    pub open spec fn at(key: Seq<char>) -> MismatchModel {
        MismatchModel::here().under(StepModel::Field(key))
    }
}

/// The models of a list of steps, in order.
pub open spec fn steps_model(steps: Seq<Step>) -> Seq<StepModel> {
    Seq::new(steps.len(), |i: int| steps[i]@)
}

impl View for ShapeMismatch {
    type V = MismatchModel;

    open spec fn view(&self) -> MismatchModel {
        MismatchModel { path: steps_model(self.path@) }
    }
}

impl ShapeMismatch {
    /// The value itself does not fit.
    pub fn here() -> (mismatch: ShapeMismatch)
        ensures
            mismatch@ == MismatchModel::here(),
    {
        let mismatch = ShapeMismatch { path: Vec::new() };
        assert(mismatch@.path =~= Seq::<StepModel>::empty());
        mismatch
    }

    /// The same mismatch, seen from the value one step further out.
    pub fn under(self, step: Step) -> (mismatch: ShapeMismatch)
        ensures
            mismatch@ == self@.under(step@),
    {
        let mut path = self.path;
        path.insert(0, step);
        let mismatch = ShapeMismatch { path };
        assert(mismatch@.path =~= seq![step@] + self@.path);
        mismatch
    }

    /// The same mismatch, seen from the object that holds the value under `key`.
    pub fn under_field(self, key: &str) -> (mismatch: ShapeMismatch)
        ensures
            mismatch@ == self@.under(StepModel::Field(key@)),
    {
        self.under(Step::Field(key.to_owned()))
    }

    /// The member under `key` is missing or does not fit.
    pub fn at(key: &str) -> (mismatch: ShapeMismatch)
        ensures
            mismatch@ == MismatchModel::at(key@),
    {
        ShapeMismatch::here().under_field(key)
    }
}

/// The model of the outcome of a reading.
pub open spec fn decoded<T: DeepView>(outcome: Result<T, ShapeMismatch>) -> Result<
    T::V,
    MismatchModel,
> {
    match outcome {
        Ok(value) => Ok(value.deep_view()),
        Err(mismatch) => Err(mismatch@),
    }
}

/// A type whose values can be read out of JSON values.
pub trait FromJson: Sized + DeepView {
    /// What a JSON value holds of this type: the value's model, or where the
    /// JSON value does not fit.
    spec fn decode(j: JsonModel) -> Result<Self::V, MismatchModel>;

    /// Reads a value out of a JSON value.
    fn from_json(j: &Json) -> (outcome: Result<Self, ShapeMismatch>)
        ensures
            decoded(outcome) == Self::decode(j@),
    ;
}

/// A type whose values can be written as JSON values.
pub trait ToJson {
    /// The JSON value that writes this value.
    spec fn encode(&self) -> JsonModel;

    /// Writes the value as a JSON value.
    fn to_json(&self) -> (j: Json)
        ensures
            j@ == self.encode(),
    ;
}

/// The outcome of a reading, seen from the object that holds the value under `key`.
pub open spec fn under_key<V>(outcome: Result<V, MismatchModel>, key: Seq<char>) -> Result<
    V,
    MismatchModel,
> {
    match outcome {
        Ok(value) => Ok(value),
        Err(mismatch) => Err(mismatch.under(StepModel::Field(key))),
    }
}

/// What a JSON value holds under `key` of a type, where the member has to be there.
pub open spec fn required<T: FromJson>(j: JsonModel, key: Seq<char>) -> Result<T::V, MismatchModel> {
    match j.member(key) {
        None => Err(MismatchModel::at(key)),
        Some(value) => under_key(T::decode(value), key),
    }
}

/// What a JSON value holds under `key` of a type, where the member may be
/// missing or null.
pub open spec fn optional<T: FromJson>(j: JsonModel, key: Seq<char>) -> Result<
    Option<T::V>,
    MismatchModel,
> {
    match j.member(key) {
        None => Ok(None),
        Some(value) => if value is Null {
            Ok(None)
        } else {
            match T::decode(value) {
                Ok(v) => Ok(Some(v)),
                Err(mismatch) => Err(mismatch.under(StepModel::Field(key))),
            }
        },
    }
}

/// Reads the member under `key`, which has to be there.
pub fn get_required<T: FromJson>(j: &Json, key: &str) -> (outcome: Result<T, ShapeMismatch>)
    ensures
        decoded(outcome) == required::<T>(j@, key@),
{
    match j.get(key) {
        None => Err(ShapeMismatch::at(key)),
        Some(value) => match T::from_json(value) {
            Ok(v) => Ok(v),
            Err(mismatch) => Err(mismatch.under_field(key)),
        },
    }
}

/// Reads the member under `key`, which may be missing or null.
pub fn get_optional<T: FromJson>(j: &Json, key: &str) -> (outcome: Result<Option<T>, ShapeMismatch>)
    ensures
        decoded(outcome) == optional::<T>(j@, key@),
{
    match j.get(key) {
        None => Ok(None),
        Some(value) => match value {
            Json::Null => Ok(None),
            _ => match T::from_json(value) {
                Ok(v) => Ok(Some(v)),
                Err(mismatch) => Err(mismatch.under_field(key)),
            },
        },
    }
}

/// Tells an object from the other JSON values.
pub fn expect_object(j: &Json) -> (outcome: Result<(), ShapeMismatch>)
    ensures
        outcome is Ok <==> j@ is Object,
        outcome matches Err(mismatch) ==> mismatch@ == MismatchModel::here(),
{
    match j {
        Json::Object(_) => Ok(()),
        _ => Err(ShapeMismatch::here()),
    }
}

impl FromJson for String {
    open spec fn decode(j: JsonModel) -> Result<Seq<char>, MismatchModel> {
        match j {
            JsonModel::Str(text) => Ok(text),
            _ => Err(MismatchModel::here()),
        }
    }

    fn from_json(j: &Json) -> (outcome: Result<String, ShapeMismatch>) {
        match j {
            Json::Str(text) => Ok(text.clone()),
            _ => Err(ShapeMismatch::here()),
        }
    }
}

impl FromJson for bool {
    open spec fn decode(j: JsonModel) -> Result<bool, MismatchModel> {
        match j {
            JsonModel::Bool(flag) => Ok(flag),
            _ => Err(MismatchModel::here()),
        }
    }

    fn from_json(j: &Json) -> (outcome: Result<bool, ShapeMismatch>) {
        match j {
            Json::Bool(flag) => Ok(*flag),
            _ => Err(ShapeMismatch::here()),
        }
    }
}

impl FromJson for u64 {
    open spec fn decode(j: JsonModel) -> Result<u64, MismatchModel> {
        match j {
            JsonModel::Number(text) => match literal_u64(text) {
                Some(value) => Ok(value),
                None => Err(MismatchModel::here()),
            },
            _ => Err(MismatchModel::here()),
        }
    }

    fn from_json(j: &Json) -> (outcome: Result<u64, ShapeMismatch>) {
        match j {
            Json::Number(text) => match parse_u64(text.as_str()) {
                Some(value) => Ok(value),
                None => Err(ShapeMismatch::here()),
            },
            _ => Err(ShapeMismatch::here()),
        }
    }
}

impl FromJson for i64 {
    open spec fn decode(j: JsonModel) -> Result<i64, MismatchModel> {
        match j {
            JsonModel::Number(text) => match literal_i64(text) {
                Some(value) => Ok(value),
                None => Err(MismatchModel::here()),
            },
            _ => Err(MismatchModel::here()),
        }
    }

    fn from_json(j: &Json) -> (outcome: Result<i64, ShapeMismatch>) {
        match j {
            Json::Number(text) => match parse_i64(text.as_str()) {
                Some(value) => Ok(value),
                None => Err(ShapeMismatch::here()),
            },
            _ => Err(ShapeMismatch::here()),
        }
    }
}

impl FromJson for isize {
    open spec fn decode(j: JsonModel) -> Result<isize, MismatchModel> {
        match j {
            JsonModel::Number(text) => match literal_i64(text) {
                Some(value) => if isize::MIN <= value <= isize::MAX {
                    Ok(value as isize)
                } else {
                    Err(MismatchModel::here())
                },
                None => Err(MismatchModel::here()),
            },
            _ => Err(MismatchModel::here()),
        }
    }

    fn from_json(j: &Json) -> (outcome: Result<isize, ShapeMismatch>) {
        match j {
            Json::Number(text) => match parse_i64(text.as_str()) {
                Some(value) => if isize::MIN as i64 <= value && value <= isize::MAX as i64 {
                    Ok(value as isize)
                } else {
                    Err(ShapeMismatch::here())
                },
                None => Err(ShapeMismatch::here()),
            },
            _ => Err(ShapeMismatch::here()),
        }
    }
}

impl FromJson for Json {
    open spec fn decode(j: JsonModel) -> Result<JsonModel, MismatchModel> {
        Ok(j)
    }

    fn from_json(j: &Json) -> (outcome: Result<Json, ShapeMismatch>) {
        Ok(j.clone())
    }
}

impl FromJson for Integer {
    open spec fn decode(j: JsonModel) -> Result<Seq<char>, MismatchModel> {
        match j {
            JsonModel::Number(text) => if is_integer_literal(text) {
                Ok(text)
            } else {
                Err(MismatchModel::here())
            },
            _ => Err(MismatchModel::here()),
        }
    }

    fn from_json(j: &Json) -> (outcome: Result<Integer, ShapeMismatch>) {
        match j {
            Json::Number(text) => match Integer::parse(text.as_str()) {
                Some(value) => Ok(value),
                None => Err(ShapeMismatch::here()),
            },
            _ => Err(ShapeMismatch::here()),
        }
    }
}

/// The text of a string or of a number's literal.
pub open spec fn scalar_text(j: JsonModel) -> Option<Seq<char>> {
    match j {
        JsonModel::Str(text) => Some(text),
        JsonModel::Number(text) => Some(text),
        _ => None,
    }
}

impl FromJson for Decimal {
    /// A decimal is read from a string or a number whose text writes one.
    open spec fn decode(j: JsonModel) -> Result<Seq<char>, MismatchModel> {
        match scalar_text(j) {
            Some(text) => if is_decimal(text) {
                Ok(text)
            } else {
                Err(MismatchModel::here())
            },
            None => Err(MismatchModel::here()),
        }
    }

    fn from_json(j: &Json) -> (outcome: Result<Decimal, ShapeMismatch>) {
        let text = match j {
            Json::Str(text) => text,
            Json::Number(text) => text,
            _ => {
                return Err(ShapeMismatch::here());
            },
        };
        match Decimal::parse(text.as_str()) {
            Some(value) => Ok(value),
            None => Err(ShapeMismatch::here()),
        }
    }
}

impl FromJson for Account {
    /// An account is read from a string that has the shape of an identifier.
    open spec fn decode(j: JsonModel) -> Result<Seq<char>, MismatchModel> {
        match j {
            JsonModel::Str(text) => if is_account(text) {
                Ok(text)
            } else {
                Err(MismatchModel::here())
            },
            _ => Err(MismatchModel::here()),
        }
    }

    fn from_json(j: &Json) -> (outcome: Result<Account, ShapeMismatch>) {
        match j {
            Json::Str(text) => match Account::from_str(text.as_str()) {
                Ok(account) => Ok(account),
                Err(_) => Err(ShapeMismatch::here()),
            },
            _ => Err(ShapeMismatch::here()),
        }
    }
}

/// What a list of JSON values holds of a type: the models of all the values,
/// or the mismatch of the first value that does not fit, under its position.
pub open spec fn decode_items<T: FromJson>(items: Seq<JsonModel>) -> Result<Seq<T::V>, MismatchModel>
    decreases items.len(),
{
    if items.len() == 0 {
        Ok(Seq::empty())
    } else {
        match decode_items::<T>(items.drop_last()) {
            Err(mismatch) => Err(mismatch),
            Ok(front) => match T::decode(items.last()) {
                Err(mismatch) => Err(mismatch.under(StepModel::Index(items.len() - 1))),
                Ok(value) => Ok(front.push(value)),
            },
        }
    }
}

/// A mismatch among the first items of a list is the mismatch of the whole list.
pub proof fn lemma_items_mismatch<T: FromJson>(items: Seq<JsonModel>, count: int)
    requires
        0 <= count <= items.len(),
        decode_items::<T>(items.subrange(0, count)) is Err,
    ensures
        decode_items::<T>(items) == decode_items::<T>(items.subrange(0, count)),
    decreases items.len() - count,
{
    if count < items.len() {
        let longer = items.subrange(0, count + 1);
        assert(longer.drop_last() =~= items.subrange(0, count));
        lemma_items_mismatch::<T>(items, count + 1);
    } else {
        assert(items.subrange(0, count) =~= items);
    }
}

impl<T: FromJson> FromJson for Vec<T> {
    /// A list is read from an array whose items all fit.
    open spec fn decode(j: JsonModel) -> Result<Seq<T::V>, MismatchModel> {
        match j {
            JsonModel::Array(items) => decode_items::<T>(items),
            _ => Err(MismatchModel::here()),
        }
    }

    fn from_json(j: &Json) -> (outcome: Result<Vec<T>, ShapeMismatch>) {
        match j {
            Json::Array(items) => {
                proof {
                    lemma_array_model(*items);
                }
                let ghost models = items_model(items@);
                let mut values: Vec<T> = Vec::new();
                let mut i: usize = 0;
                proof {
                    assert(models.subrange(0, 0) =~= Seq::<JsonModel>::empty());
                    assert(values.deep_view() =~= Seq::<T::V>::empty());
                }
                while i < items.len()
                    invariant
                        i <= items.len(),
                        models == items_model(items@),
                        j@ == JsonModel::Array(models),
                        decode_items::<T>(models.subrange(0, i as int)) == Ok::<
                            Seq<T::V>,
                            MismatchModel,
                        >(values.deep_view()),
                    decreases items.len() - i,
                {
                    let ghost before = values.deep_view();
                    proof {
                        let longer = models.subrange(0, i + 1);
                        assert(longer.drop_last() =~= models.subrange(0, i as int));
                        assert(longer.last() == items@[i as int]@);
                    }
                    match T::from_json(&items[i]) {
                        Ok(value) => {
                            values.push(value);
                            proof {
                                assert(values.deep_view() =~= before.push(value.deep_view()));
                            }
                        },
                        Err(mismatch) => {
                            proof {
                                lemma_items_mismatch::<T>(models, i + 1);
                            }
                            return Err(mismatch.under(Step::Index(i)));
                        },
                    }
                    i += 1;
                }
                proof {
                    assert(models.subrange(0, i as int) =~= models);
                }
                Ok(values)
            },
            _ => Err(ShapeMismatch::here()),
        }
    }
}

} // verus!
