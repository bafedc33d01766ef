use vstd::prelude::*;

verus! {

/// One scored attribute of a plant, with the reason for its score.
#[derive(Clone, Debug)]
pub struct PlantParameter {
    pub score: u8,
    pub explanation: String,
}

/// The five scored attributes that every plant carries.
#[derive(Clone, Debug)]
pub struct PlantParameters {
    pub color_vibrancy: PlantParameter,
    pub leaf_area_index: PlantParameter,
    pub wilting: PlantParameter,
    pub spotting: PlantParameter,
    pub symmetry: PlantParameter,
}

/// The record kept for each minted token.
#[derive(Clone, Debug)]
pub struct PlantMetadata {
    pub glb_file_url: String,
    pub parameters: PlantParameters,
    pub name: String,
    pub wallet_id: String,
    pub price: String,
}

/// A scored attribute as a mathematical value.
pub ghost struct ParameterModel {
    pub score: u8,
    pub explanation: Seq<char>,
}

/// The five scored attributes as mathematical values.
pub ghost struct ParametersModel {
    pub color_vibrancy: ParameterModel,
    pub leaf_area_index: ParameterModel,
    pub wilting: ParameterModel,
    pub spotting: ParameterModel,
    pub symmetry: ParameterModel,
}

/// A plant record as a mathematical value.
pub ghost struct MetadataModel {
    pub glb_file_url: Seq<char>,
    pub parameters: ParametersModel,
    pub name: Seq<char>,
    pub wallet_id: Seq<char>,
    pub price: Seq<char>,
}

impl View for PlantParameter {
    type V = ParameterModel;

    open spec fn view(&self) -> ParameterModel {
        ParameterModel { score: self.score, explanation: self.explanation@ }
    }
}

impl View for PlantParameters {
    type V = ParametersModel;

    open spec fn view(&self) -> ParametersModel {
        ParametersModel {
            color_vibrancy: self.color_vibrancy@,
            leaf_area_index: self.leaf_area_index@,
            wilting: self.wilting@,
            spotting: self.spotting@,
            symmetry: self.symmetry@,
        }
    }
}

impl View for PlantMetadata {
    type V = MetadataModel;

    open spec fn view(&self) -> MetadataModel {
        MetadataModel {
            glb_file_url: self.glb_file_url@,
            parameters: self.parameters@,
            name: self.name@,
            wallet_id: self.wallet_id@,
            price: self.price@,
        }
    }
}

impl PlantParameter {
    /// A copy with the same score and explanation.
    pub fn duplicate(&self) -> (r: Self)
        ensures
            r@ == self@,
    {
        PlantParameter { score: self.score, explanation: self.explanation.clone() }
    }
}

impl PlantParameters {
    /// A copy with the same five attributes.
    pub fn duplicate(&self) -> (r: Self)
        ensures
            r@ == self@,
    {
        PlantParameters {
            color_vibrancy: self.color_vibrancy.duplicate(),
            leaf_area_index: self.leaf_area_index.duplicate(),
            wilting: self.wilting.duplicate(),
            spotting: self.spotting.duplicate(),
            symmetry: self.symmetry.duplicate(),
        }
    }
}

impl PlantMetadata {
    /// A copy that holds the same record.
    pub fn duplicate(&self) -> (r: Self)
        ensures
            r@ == self@,
    {
        PlantMetadata {
            glb_file_url: self.glb_file_url.clone(),
            parameters: self.parameters.duplicate(),
            name: self.name.clone(),
            wallet_id: self.wallet_id.clone(),
            price: self.price.clone(),
        }
    }
}

} // verus!
