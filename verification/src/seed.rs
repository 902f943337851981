//! The chart of accounts (BAS kontoplan 2026, all main accounts) and the
//! SRU codes that a new company starts with.
use vstd::prelude::*;

verus! {

/// The accounts of the BAS chart, as (number, name, type).
pub open spec fn bas_chart() -> Seq<(i32, Seq<char>, Seq<char>)> {
    seq![
        (1010i32, "Utvecklingsutgifter"@, "asset"@),
        (1020i32, "Koncessioner m.m."@, "asset"@),
        (1030i32, "Patent"@, "asset"@),
        (1040i32, "Licenser"@, "asset"@),
        (1050i32, "Varumärken"@, "asset"@),
        (1060i32, "Hyresrätter och liknande"@, "asset"@),
        (1070i32, "Goodwill"@, "asset"@),
        (1080i32, "Pågående projekt och förskott för immateriella anläggningstillgångar"@, "asset"@),
        (1090i32, "Övriga immateriella anläggningstillgångar"@, "asset"@),
        (1110i32, "Byggnader"@, "asset"@),
        (1120i32, "Förbättringsutgifter på annans fastighet"@, "asset"@),
        (1130i32, "Mark"@, "asset"@),
        (1140i32, "Tomter och obebyggda markområden"@, "asset"@),
        (1150i32, "Markanläggningar"@, "asset"@),
        (1180i32, "Pågående nyanläggningar och förskott för byggnader och mark"@, "asset"@),
        (1210i32, "Maskiner och andra tekniska anläggningar"@, "asset"@),
        (1220i32, "Inventarier, verktyg och installationer"@, "asset"@),
        (1230i32, "Maskiner och andra tekniska anläggningar (fritt konto)"@, "asset"@),
        (1240i32, "Maskiner och andra tekniska anläggningar (fritt konto 2)"@, "asset"@),
        (1250i32, "Inventarier, verktyg och installationer (fritt konto)"@, "asset"@),
        (1260i32, "Inventarier, verktyg och installationer (fritt konto 2)"@, "asset"@),
        (1280i32, "Pågående nyanläggningar och förskott för maskiner respektive inventarier"@, "asset"@),
        (1290i32, "Övriga materiella anläggningstillgångar"@, "asset"@),
        (1310i32, "Andelar i koncernföretag"@, "asset"@),
        (1320i32, "Långfristiga fordringar hos koncernföretag"@, "asset"@),
        (1330i32, "Andelar i intresseföretag och gemensamt styrda företag samt övriga företag som det finns ett ägarintresse i"@, "asset"@),
        (1340i32, "Långfristiga fordringar hos intresseföretag och gemensamt styrda företag samt övriga företag som det finns ett ägarintresse i"@, "asset"@),
        (1350i32, "Andra långfristiga värdepappersinnehav"@, "asset"@),
        (1360i32, "Lån till delägare eller närstående, långfristig del"@, "asset"@),
        (1370i32, "Uppskjuten skattefordran"@, "asset"@),
        (1380i32, "Andra långfristiga fordringar"@, "asset"@),
        (1410i32, "Lager av råvaror"@, "asset"@),
        (1420i32, "Lager av tillsatsmaterial och förnödenheter"@, "asset"@),
        (1440i32, "Produkter i arbete"@, "asset"@),
        (1450i32, "Lager av färdiga varor"@, "asset"@),
        (1460i32, "Lager av handelsvaror"@, "asset"@),
        (1470i32, "Pågående arbeten"@, "asset"@),
        (1480i32, "Förskott för varor och tjänster"@, "asset"@),
        (1490i32, "Övriga lagertillgångar"@, "asset"@),
        (1510i32, "Kundfordringar"@, "asset"@),
        (1520i32, "Växelfordringar"@, "asset"@),
        (1530i32, "Kontraktsfordringar"@, "asset"@),
        (1550i32, "Konsignationsfordringar"@, "asset"@),
        (1560i32, "Kundfordringar hos koncernföretag"@, "asset"@),
        (1570i32, "Kundfordringar hos intresseföretag, gemensamt styrda företag och övriga företag som det finns ett ägarintresse i"@, "asset"@),
        (1610i32, "Kortfristiga fordringar hos anställda"@, "asset"@),
        (1620i32, "Upparbetad men ej fakturerad intäkt"@, "asset"@),
        (1630i32, "Avräkning för skatter och avgifter (skattekonto)"@, "asset"@),
        (1640i32, "Skattefordringar"@, "asset"@),
        (1650i32, "Momsfordran"@, "asset"@),
        (1660i32, "Kortfristiga fordringar hos koncernföretag"@, "asset"@),
        (1670i32, "Kortfristiga fordringar hos intresseföretag, gemensamt styrda företag och övriga företag som det finns ett ägarintresse i"@, "asset"@),
        (1680i32, "Andra kortfristiga fordringar"@, "asset"@),
        (1690i32, "Fordringar för tecknat men ej inbetalt aktiekapital"@, "asset"@),
        (1710i32, "Förutbetalda hyreskostnader"@, "asset"@),
        (1720i32, "Förutbetalda leasingavgifter"@, "asset"@),
        (1730i32, "Förutbetalda försäkringspremier"@, "asset"@),
        (1740i32, "Förutbetalda räntekostnader"@, "asset"@),
        (1750i32, "Upplupna hyresintäkter"@, "asset"@),
        (1760i32, "Upplupna ränteintäkter"@, "asset"@),
        (1770i32, "Tillgångar av kostnadsnatur"@, "asset"@),
        (1780i32, "Upplupna avtalsintäkter"@, "asset"@),
        (1790i32, "Övriga förutbetalda kostnader och upplupna intäkter"@, "asset"@),
        (1810i32, "Andelar i börsnoterade företag"@, "asset"@),
        (1820i32, "Obligationer"@, "asset"@),
        (1830i32, "Konvertibla skuldebrev"@, "asset"@),
        (1860i32, "Andelar i koncernföretag, kortfristigt"@, "asset"@),
        (1880i32, "Andra kortfristiga placeringar"@, "asset"@),
        (1890i32, "Nedskrivning av kortfristiga placeringar"@, "asset"@),
        (1910i32, "Kassa"@, "asset"@),
        (1920i32, "PlusGiro"@, "asset"@),
        (1930i32, "Företagskonto"@, "asset"@),
        (1940i32, "Övriga bankkonton"@, "asset"@),
        (1950i32, "Bankcertifikat"@, "asset"@),
        (1960i32, "Koncernkonto moderföretag"@, "asset"@),
        (1970i32, "Särskilda bankkonton"@, "asset"@),
        (1980i32, "Valutakonton"@, "asset"@),
        (1990i32, "Redovisningsmedel"@, "asset"@),
        (2010i32, "Eget kapital"@, "equity"@),
        (2020i32, "Eget kapital"@, "equity"@),
        (2030i32, "Eget kapital"@, "equity"@),
        (2040i32, "Eget kapital"@, "equity"@),
        (2050i32, "Avsättning till expansionsfond"@, "equity"@),
        (2060i32, "Eget kapital i ideella föreningar, stiftelser och registrerade trossamfund"@, "equity"@),
        (2070i32, "Ändamålsbestämda medel"@, "equity"@),
        (2080i32, "Bundet eget kapital"@, "equity"@),
        (2090i32, "Fritt eget kapital"@, "equity"@),
        (2081i32, "Aktiekapital"@, "equity"@),
        (2082i32, "Ej registrerat aktiekapital"@, "equity"@),
        (2083i32, "Medlemsinsatser"@, "equity"@),
        (2084i32, "Förlagsinsatser"@, "equity"@),
        (2085i32, "Uppskrivningsfond"@, "equity"@),
        (2086i32, "Reservfond"@, "equity"@),
        (2087i32, "Bunden överkursfond"@, "equity"@),
        (2088i32, "Fond för yttre underhåll"@, "equity"@),
        (2089i32, "Fond för utvecklingsutgifter"@, "equity"@),
        (2091i32, "Balanserad vinst eller förlust"@, "equity"@),
        (2093i32, "Erhållna aktieägartillskott"@, "equity"@),
        (2094i32, "Egna aktier"@, "equity"@),
        (2095i32, "Fusionsresultat"@, "equity"@),
        (2097i32, "Fri överkursfond"@, "equity"@),
        (2098i32, "Vinst eller förlust från föregående år"@, "equity"@),
        (2099i32, "Årets resultat"@, "equity"@),
        (2110i32, "Periodiseringsfonder"@, "liability"@),
        (2120i32, "Periodiseringsfond 2020"@, "liability"@),
        (2130i32, "Periodiseringsfond 2020 – nr 2"@, "liability"@),
        (2150i32, "Ackumulerade överavskrivningar"@, "liability"@),
        (2160i32, "Ersättningsfond"@, "liability"@),
        (2190i32, "Övriga obeskattade reserver"@, "liability"@),
        (2210i32, "Avsättningar för pensioner enligt tryggandelagen"@, "liability"@),
        (2220i32, "Avsättningar för garantier"@, "liability"@),
        (2230i32, "Övriga avsättningar för pensioner och liknande förpliktelser"@, "liability"@),
        (2240i32, "Avsättningar för uppskjutna skatter"@, "liability"@),
        (2250i32, "Övriga avsättningar för skatter"@, "liability"@),
        (2290i32, "Övriga avsättningar"@, "liability"@),
        (2310i32, "Obligations- och förlagslån"@, "liability"@),
        (2320i32, "Konvertibla lån och liknande"@, "liability"@),
        (2330i32, "Kontokredit"@, "liability"@),
        (2340i32, "Byggnadskreditiv"@, "liability"@),
        (2350i32, "Andra långfristiga skulder till kreditinstitut"@, "liability"@),
        (2360i32, "Långfristiga skulder till koncernföretag"@, "liability"@),
        (2370i32, "Långfristiga skulder till intresseföretag, gemensamt styrda företag och övriga företag som det finns ett ägarintresse i"@, "liability"@),
        (2390i32, "Övriga långfristiga skulder"@, "liability"@),
        (2410i32, "Andra kortfristiga låneskulder till kreditinstitut"@, "liability"@),
        (2420i32, "Förskott från kunder"@, "liability"@),
        (2430i32, "Pågående arbeten"@, "liability"@),
        (2440i32, "Leverantörsskulder"@, "liability"@),
        (2450i32, "Fakturerad men ej upparbetad intäkt"@, "liability"@),
        (2460i32, "Leverantörsskulder till koncernföretag"@, "liability"@),
        (2470i32, "Leverantörsskulder till intresseföretag, gemensamt styrda företag och övriga företag som det finns ett ägarintresse i"@, "liability"@),
        (2480i32, "Kontokredit, kortfristig"@, "liability"@),
        (2490i32, "Övriga kortfristiga skulder till kreditinstitut, kunder och leverantörer"@, "liability"@),
        (2510i32, "Skatteskulder"@, "liability"@),
        (2610i32, "Utgående moms, 25 %"@, "liability"@),
        (2620i32, "Utgående moms, 12 %"@, "liability"@),
        (2630i32, "Utgående moms, 6 %"@, "liability"@),
        (2640i32, "Ingående moms"@, "liability"@),
        (2650i32, "Redovisningskonto för moms"@, "liability"@),
        (2660i32, "Punktskatter"@, "liability"@),
        (2670i32, "Utgående moms på försäljning inom EU, OSS"@, "liability"@),
        (2710i32, "Personalskatt"@, "liability"@),
        (2730i32, "Lagstadgade sociala avgifter och särskild löneskatt"@, "liability"@),
        (2740i32, "Avtalade sociala avgifter"@, "liability"@),
        (2750i32, "Utmätning i lön m.m."@, "liability"@),
        (2760i32, "Semestermedel"@, "liability"@),
        (2790i32, "Övriga löneavdrag"@, "liability"@),
        (2810i32, "Avräkning för factoring och belånade kontraktsfordringar"@, "liability"@),
        (2820i32, "Kortfristiga skulder till anställda"@, "liability"@),
        (2830i32, "Avräkning för annans räkning"@, "liability"@),
        (2840i32, "Kortfristiga låneskulder"@, "liability"@),
        (2850i32, "Avräkning för skatter och avgifter (skattekonto)"@, "liability"@),
        (2860i32, "Kortfristiga skulder till koncernföretag"@, "liability"@),
        (2870i32, "Kortfristiga skulder till intresseföretag, gemensamt styrda företag och övriga företag som det finns ett ägarintresse i"@, "liability"@),
        (2880i32, "Skuld erhållna bidrag"@, "liability"@),
        (2890i32, "Övriga kortfristiga skulder"@, "liability"@),
        (2910i32, "Upplupna löner"@, "liability"@),
        (2920i32, "Upplupna semesterlöner"@, "liability"@),
        (2930i32, "Upplupna pensionskostnader"@, "liability"@),
        (2940i32, "Upplupna lagstadgade sociala och andra avgifter"@, "liability"@),
        (2950i32, "Upplupna avtalade sociala avgifter"@, "liability"@),
        (2960i32, "Upplupna räntekostnader"@, "liability"@),
        (2970i32, "Förutbetalda intäkter"@, "liability"@),
        (2980i32, "Upplupna avtalskostnader"@, "liability"@),
        (2990i32, "Övriga upplupna kostnader och förutbetalda intäkter"@, "liability"@),
        (3000i32, "Försäljning inom Sverige"@, "revenue"@),
        (3001i32, "Försäljning inom Sverige, 25 % moms"@, "revenue"@),
        (3002i32, "Försäljning inom Sverige, 12 % moms"@, "revenue"@),
        (3003i32, "Försäljning inom Sverige, 6 % moms"@, "revenue"@),
        (3004i32, "Försäljning inom Sverige, momsfri"@, "revenue"@),
        (3100i32, "Försäljning av varor utanför Sverige"@, "revenue"@),
        (3200i32, "Försäljning VMB och omvänd moms"@, "revenue"@),
        (3300i32, "Försäljning av tjänster utanför Sverige"@, "revenue"@),
        (3400i32, "Försäljning, egna uttag"@, "revenue"@),
        (3500i32, "Fakturerade kostnader (gruppkonto)"@, "revenue"@),
        (3510i32, "Fakturerat emballage"@, "revenue"@),
        (3520i32, "Fakturerade frakter"@, "revenue"@),
        (3530i32, "Fakturerade tull- och speditionskostnader m.m."@, "revenue"@),
        (3540i32, "Faktureringsavgifter"@, "revenue"@),
        (3550i32, "Fakturerade resekostnader"@, "revenue"@),
        (3560i32, "Fakturerade kostnader till koncernföretag"@, "revenue"@),
        (3570i32, "Fakturerade kostnader till intresseföretag, gemensamt styrda företag och övriga företag som det finns ett ägarintresse i"@, "revenue"@),
        (3590i32, "Övriga fakturerade kostnader"@, "revenue"@),
        (3600i32, "Rörelsens sidointäkter (gruppkonto)"@, "revenue"@),
        (3610i32, "Försäljning av material"@, "revenue"@),
        (3620i32, "Tillfällig uthyrning av personal"@, "revenue"@),
        (3630i32, "Tillfällig uthyrning av transportmedel"@, "revenue"@),
        (3670i32, "Intäkter från värdepapper"@, "revenue"@),
        (3680i32, "Management fees"@, "revenue"@),
        (3690i32, "Övriga sidointäkter"@, "revenue"@),
        (3700i32, "Intäktskorrigeringar (gruppkonto)"@, "revenue"@),
        (3710i32, "Ofördelade intäktsreduktioner"@, "revenue"@),
        (3730i32, "Lämnade rabatter"@, "revenue"@),
        (3740i32, "Öres- och kronutjämning"@, "revenue"@),
        (3750i32, "Punktskatter"@, "revenue"@),
        (3790i32, "Övriga intäktskorrigeringar"@, "revenue"@),
        (3800i32, "Aktiverat arbete för egen räkning (gruppkonto)"@, "revenue"@),
        (3840i32, "Aktiverat arbete (material)"@, "revenue"@),
        (3850i32, "Aktiverat arbete (omkostnader)"@, "revenue"@),
        (3870i32, "Aktiverat arbete (personal)"@, "revenue"@),
        (3900i32, "Övriga rörelseintäkter (gruppkonto)"@, "revenue"@),
        (3910i32, "Hyres- och arrendeintäkter"@, "revenue"@),
        (3920i32, "Provisionsintäkter, licensintäkter och royalties"@, "revenue"@),
        (3940i32, "Orealiserade negativa/positiva värdeförändringar på säkringsinstrument"@, "revenue"@),
        (3950i32, "Återvunna, tidigare avskrivna kundfordringar"@, "revenue"@),
        (3960i32, "Valutakursvinster på fordringar och skulder av rörelsekaraktär"@, "revenue"@),
        (3970i32, "Vinst vid avyttring av immateriella och materiella anläggningstillgångar"@, "revenue"@),
        (3980i32, "Erhållna offentliga bidrag"@, "revenue"@),
        (3990i32, "Övriga ersättningar, bidrag och intäkter"@, "revenue"@),
        (4000i32, "Inköp av handelsvaror (gruppkonto)"@, "expense"@),
        (4010i32, "Inköp av handelsvaror i Sverige"@, "expense"@),
        (4060i32, "Inköp av handelsvaror i Sverige, omvänd betalningsskyldighet"@, "expense"@),
        (4070i32, "Inköp av handelsvaror från annat EU-land"@, "expense"@),
        (4080i32, "Import av handelsvaror"@, "expense"@),
        (4090i32, "Erhållna rabatter (Handelsvaror)"@, "expense"@),
        (4200i32, "Sålda handelsvaror VMB (gruppkonto)"@, "expense"@),
        (4210i32, "Sålda handelsvaror VMB"@, "expense"@),
        (4300i32, "Inköp av råvaror och material i Sverige (gruppkonto)"@, "expense"@),
        (4310i32, "Inköp av råvaror och material i Sverige"@, "expense"@),
        (4400i32, "Inköp av råvaror och material, tjänster m.m. i Sverige, omvänd betalningsskyldighet (gruppkonto)"@, "expense"@),
        (4410i32, "Inköp av råvaror och material i Sverige, omvänd betalningsskyldighet"@, "expense"@),
        (4420i32, "Inköp av tjänster i Sverige, omvänd betalningsskyldighet"@, "expense"@),
        (4500i32, "Inköp av råvaror och material, tjänster m.m. från utlandet (gruppkonto)"@, "expense"@),
        (4510i32, "Inköp av råvaror och material från annat EU-land"@, "expense"@),
        (4530i32, "Inköp av tjänster m.m. från utlandet"@, "expense"@),
        (4540i32, "Import av råvaror och material"@, "expense"@),
        (4600i32, "Inköp av tjänster, underentreprenader och legoarbeten i Sverige (gruppkonto)"@, "expense"@),
        (4610i32, "Inköp av tjänster och underentreprenader"@, "expense"@),
        (4670i32, "Inköp av legoarbeten"@, "expense"@),
        (4700i32, "Reduktion av inköpspriser (gruppkonto)"@, "expense"@),
        (4730i32, "Erhållna rabatter (Råvaror och förnödenheter)"@, "expense"@),
        (4800i32, "Andra produktionskostnader (gruppkonto)"@, "expense"@),
        (4810i32, "Kostnader för energi (Råvaror och förnödenheter)"@, "expense"@),
        (4820i32, "Kostnader för drivmedel (Råvaror och förnödenheter)"@, "expense"@),
        (4830i32, "Kostnader för resor (Råvaror och förnödenheter)"@, "expense"@),
        (4840i32, "Kostnader för hyra av utrustning (Råvaror och förnödenheter)"@, "expense"@),
        (4890i32, "Övriga produktionskostnader (Råvaror och förnödenheter)"@, "expense"@),
        (4900i32, "Förändring av lager (gruppkonto)"@, "expense"@),
        (4910i32, "Förändring av lager av råvaror"@, "expense"@),
        (4920i32, "Förändring av lager av tillsatsmaterial och förnödenheter"@, "expense"@),
        (4940i32, "Förändring av produkter i arbete"@, "expense"@),
        (4950i32, "Förändring av lager av färdiga varor"@, "expense"@),
        (4960i32, "Förändring av lager av handelsvaror"@, "expense"@),
        (4970i32, "Förändring av pågående arbeten, nedlagda kostnader"@, "expense"@),
        (4980i32, "Förändring av lager av värdepapper (Handelsvaror)"@, "expense"@),
        (5000i32, "Lokalkostnader (gruppkonto)"@, "expense"@),
        (5010i32, "Lokalhyra"@, "expense"@),
        (5020i32, "El"@, "expense"@),
        (5030i32, "Värme"@, "expense"@),
        (5040i32, "Vatten och avlopp"@, "expense"@),
        (5050i32, "Lokaltillbehör"@, "expense"@),
        (5060i32, "Städning och renhållning"@, "expense"@),
        (5070i32, "Reparation och underhåll av lokaler"@, "expense"@),
        (5090i32, "Övriga lokalkostnader"@, "expense"@),
        (5100i32, "Fastighetskostnader (gruppkonto)"@, "expense"@),
        (5110i32, "Tomträttsavgäld/arrende"@, "expense"@),
        (5120i32, "El"@, "expense"@),
        (5130i32, "Värme"@, "expense"@),
        (5140i32, "Vatten och avlopp"@, "expense"@),
        (5160i32, "Städning och renhållning"@, "expense"@),
        (5170i32, "Reparation och underhåll av fastighet"@, "expense"@),
        (5190i32, "Övriga fastighetskostnader"@, "expense"@),
        (5200i32, "Hyra av anläggningstillgångar (gruppkonto)"@, "expense"@),
        (5210i32, "Hyra av maskiner och andra tekniska anläggningar, ej datorer och fordon"@, "expense"@),
        (5220i32, "Hyra av inventarier och verktyg, ej datorer och fordon"@, "expense"@),
        (5250i32, "Hyra av datorer"@, "expense"@),
        (5290i32, "Hyra av övriga anläggningstillgångar, ej datorer och fordon"@, "expense"@),
        (5300i32, "Energikostnader för drift (gruppkonto)"@, "expense"@),
        (5310i32, "El för drift (ej råvaror och förnödenheter)"@, "expense"@),
        (5320i32, "Gas för drift (ej råvaror och förnödenheter)"@, "expense"@),
        (5330i32, "Eldningsolja för drift (ej råvaror och förnödenheter)"@, "expense"@),
        (5340i32, "Stenkol och koks för drift (ej råvaror och förnödenheter)"@, "expense"@),
        (5350i32, "Torv, träkol, ved, m.m. för drift (ej råvaror och förnödenheter)"@, "expense"@),
        (5360i32, "Bensin, fotogen och motorbrännolja för drift (ej råvaror och förnödenheter)"@, "expense"@),
        (5370i32, "Fjärrvärme, kyla och ånga för drift (ej råvaror och förnödenheter)"@, "expense"@),
        (5380i32, "Vatten för drift (ej råvaror och förnödenheter)"@, "expense"@),
        (5390i32, "Övriga energikostnader för drift (ej råvaror och förnödenheter)"@, "expense"@),
        (5400i32, "Förbrukningsinventarier och förbrukningsmaterial (gruppkonto)"@, "expense"@),
        (5410i32, "Förbrukningsinventarier"@, "expense"@),
        (5420i32, "Programvaror"@, "expense"@),
        (5430i32, "Transportinventarier"@, "expense"@),
        (5440i32, "Förbrukningsemballage"@, "expense"@),
        (5460i32, "Förbrukningsmaterial"@, "expense"@),
        (5480i32, "Arbetskläder och skyddsmaterial"@, "expense"@),
        (5500i32, "Reparation och underhåll (gruppkonto)"@, "expense"@),
        (5510i32, "Reparation och underhåll av maskiner och andra tekniska anläggningar"@, "expense"@),
        (5520i32, "Reparation och underhåll av inventarier, verktyg och datorer m.m."@, "expense"@),
        (5530i32, "Reparation och underhåll byggnads- och markinventarier"@, "expense"@),
        (5550i32, "Reparation och underhåll av förbrukningsinventarier"@, "expense"@),
        (5580i32, "Underhåll och tvätt av arbetskläder"@, "expense"@),
        (5590i32, "Övriga kostnader för reparation och underhåll"@, "expense"@),
        (5600i32, "Kostnader för transportmedel (gruppkonto)"@, "expense"@),
        (5610i32, "Personbils- och mc-kostnader, m.m."@, "expense"@),
        (5620i32, "Lastbils- och busskostnader, m.m."@, "expense"@),
        (5630i32, "Truckkostnader"@, "expense"@),
        (5640i32, "Kostnader för arbetsmaskiner"@, "expense"@),
        (5650i32, "Traktorkostnader"@, "expense"@),
        (5670i32, "Kostnader för fartyg och luftfartyg"@, "expense"@),
        (5680i32, "Kostnader för rälsfordon"@, "expense"@),
        (5690i32, "Kostnader för övriga transportmedel"@, "expense"@),
        (5700i32, "Frakter och transporter (gruppkonto)"@, "expense"@),
        (5710i32, "Frakter och försäkringar vid varudistribution"@, "expense"@),
        (5720i32, "Tull- och speditionskostnader m.m."@, "expense"@),
        (5730i32, "Arbetstransporter"@, "expense"@),
        (5790i32, "Övriga kostnader för frakter och transporter"@, "expense"@),
        (5800i32, "Resekostnader (gruppkonto)"@, "expense"@),
        (5810i32, "Biljetter"@, "expense"@),
        (5820i32, "Hyrbilskostnader"@, "expense"@),
        (5830i32, "Kost och logi"@, "expense"@),
        (5890i32, "Övriga resekostnader"@, "expense"@),
        (5900i32, "Reklam och PR (gruppkonto)"@, "expense"@),
        (5910i32, "Annonsering"@, "expense"@),
        (5920i32, "Utomhus- och trafikreklam"@, "expense"@),
        (5930i32, "Reklamtrycksaker och direktreklam"@, "expense"@),
        (5940i32, "Utställningar och mässor"@, "expense"@),
        (5950i32, "Butiksreklam och återförsäljarreklam"@, "expense"@),
        (5960i32, "Varuprover, reklamgåvor, presentreklam och tävlingar"@, "expense"@),
        (5970i32, "Film-, radio-, TV- och Internetreklam"@, "expense"@),
        (5980i32, "Sponsring"@, "expense"@),
        (5990i32, "Övriga kostnader för reklam och PR"@, "expense"@),
        (6000i32, "Övriga försäljningskostnader (gruppkonto)"@, "expense"@),
        (6010i32, "Kataloger, prislistor m.m."@, "expense"@),
        (6020i32, "Egna facktidskrifter"@, "expense"@),
        (6030i32, "Speciella orderkostnader"@, "expense"@),
        (6040i32, "Kontokortsavgifter"@, "expense"@),
        (6050i32, "Försäljningsprovisioner"@, "expense"@),
        (6060i32, "Kreditförsäljningskostnader"@, "expense"@),
        (6070i32, "Representation"@, "expense"@),
        (6071i32, "Representation, avdragsgill"@, "expense"@),
        (6072i32, "Representation, ej avdragsgill"@, "expense"@),
        (6080i32, "Bankgarantier"@, "expense"@),
        (6090i32, "Övriga försäljningskostnader"@, "expense"@),
        (6100i32, "Kontorsmateriel och trycksaker (gruppkonto)"@, "expense"@),
        (6110i32, "Kontorsmateriel"@, "expense"@),
        (6150i32, "Trycksaker"@, "expense"@),
        (6200i32, "Tele, data och post (gruppkonto)"@, "expense"@),
        (6210i32, "Telekommunikation"@, "expense"@),
        (6211i32, "Fast telefoni"@, "expense"@),
        (6212i32, "Mobiltelefon"@, "expense"@),
        (6230i32, "Datakommunikation"@, "expense"@),
        (6250i32, "Porto"@, "expense"@),
        (6290i32, "Övriga tele-, data- och postkostnader"@, "expense"@),
        (6300i32, "Företagsförsäkringar och övriga riskkostnader (gruppkonto)"@, "expense"@),
        (6310i32, "Företagsförsäkringar"@, "expense"@),
        (6320i32, "Självrisker vid skada"@, "expense"@),
        (6330i32, "Förluster i pågående arbeten"@, "expense"@),
        (6340i32, "Lämnade skadestånd"@, "expense"@),
        (6350i32, "Förluster på kundfordringar"@, "expense"@),
        (6360i32, "Garantikostnader"@, "expense"@),
        (6370i32, "Kostnader för bevakning och larm"@, "expense"@),
        (6380i32, "Förluster på övriga kortfristiga fordringar"@, "expense"@),
        (6390i32, "Övriga riskkostnader"@, "expense"@),
        (6400i32, "Förvaltningskostnader (gruppkonto)"@, "expense"@),
        (6420i32, "Ersättningar till revisor"@, "expense"@),
        (6430i32, "Management fees"@, "expense"@),
        (6440i32, "Årsredovisning och delårsrapporter"@, "expense"@),
        (6450i32, "Bolagsstämma/års- eller föreningsstämma"@, "expense"@),
        (6490i32, "Övriga förvaltningskostnader"@, "expense"@),
        (6500i32, "Övriga externa tjänster (gruppkonto)"@, "expense"@),
        (6510i32, "Mätningskostnader"@, "expense"@),
        (6520i32, "Ritnings- och kopieringskostnader"@, "expense"@),
        (6530i32, "Redovisningstjänster"@, "expense"@),
        (6540i32, "IT-tjänster"@, "expense"@),
        (6550i32, "Konsultarvoden"@, "expense"@),
        (6560i32, "Serviceavgifter till branschorganisationer"@, "expense"@),
        (6570i32, "Bankkostnader"@, "expense"@),
        (6580i32, "Advokat- och rättegångskostnader"@, "expense"@),
        (6590i32, "Övriga externa tjänster"@, "expense"@),
        (6700i32, "Särskilt för ideella föreningar och stiftelser (gruppkonto)"@, "expense"@),
        (6710i32, "Lämnade bidrag"@, "expense"@),
        (6800i32, "Inhyrd personal (gruppkonto)"@, "expense"@),
        (6810i32, "Inhyrd produktionspersonal"@, "expense"@),
        (6820i32, "Inhyrd lagerpersonal"@, "expense"@),
        (6830i32, "Inhyrd transportpersonal"@, "expense"@),
        (6840i32, "Inhyrd kontors- och ekonomipersonal"@, "expense"@),
        (6850i32, "Inhyrd IT-personal"@, "expense"@),
        (6860i32, "Inhyrd marknads- och försäljningspersonal"@, "expense"@),
        (6870i32, "Inhyrd restaurang- och butikspersonal"@, "expense"@),
        (6880i32, "Inhyrda företagsledare"@, "expense"@),
        (6890i32, "Övrig inhyrd personal"@, "expense"@),
        (6900i32, "Övriga externa kostnader (gruppkonto)"@, "expense"@),
        (6910i32, "Licensavgifter och royalties"@, "expense"@),
        (6920i32, "Kostnader för egna patent"@, "expense"@),
        (6930i32, "Kostnader för varumärken m.m."@, "expense"@),
        (6940i32, "Kontroll-, provnings- och stämpelavgifter"@, "expense"@),
        (6950i32, "Tillsynsavgifter myndigheter"@, "expense"@),
        (6970i32, "Tidningar, facklitteratur, m.m."@, "expense"@),
        (6980i32, "Föreningsavgifter"@, "expense"@),
        (6990i32, "Övriga externa kostnader"@, "expense"@),
        (7000i32, "Löner till kollektivanställda (gruppkonto)"@, "expense"@),
        (7010i32, "Löner till kollektivanställda"@, "expense"@),
        (7030i32, "Löner till kollektivanställda (utlandsanställda)"@, "expense"@),
        (7080i32, "Löner till kollektivanställda för ej arbetad tid"@, "expense"@),
        (7090i32, "Förändring av semesterlöneskuld"@, "expense"@),
        (7200i32, "Löner till tjänstemän och företagsledare (gruppkonto)"@, "expense"@),
        (7210i32, "Löner till tjänstemän"@, "expense"@),
        (7220i32, "Löner till företagsledare"@, "expense"@),
        (7230i32, "Löner till tjänstemän och ftgsledare (utlandsanställda)"@, "expense"@),
        (7240i32, "Styrelsearvoden"@, "expense"@),
        (7280i32, "Löner till tjänstemän och företagsledare för ej arbetad tid"@, "expense"@),
        (7290i32, "Förändring av semesterlöneskuld"@, "expense"@),
        (7300i32, "Kostnadsersättningar och förmåner (gruppkonto)"@, "expense"@),
        (7310i32, "Kontanta extraersättningar"@, "expense"@),
        (7320i32, "Traktamenten vid tjänsteresa"@, "expense"@),
        (7330i32, "Bilersättningar"@, "expense"@),
        (7350i32, "Ersättningar för föreskrivna arbetskläder"@, "expense"@),
        (7370i32, "Representationsersättningar"@, "expense"@),
        (7380i32, "Kostnader för förmåner till anställda"@, "expense"@),
        (7390i32, "Övriga kostnadsersättningar och förmåner"@, "expense"@),
        (7400i32, "Pensionskostnader (gruppkonto)"@, "expense"@),
        (7410i32, "Pensionsförsäkringspremier"@, "expense"@),
        (7420i32, "Förändring av pensionsskuld"@, "expense"@),
        (7430i32, "Avdrag för räntedel i pensionskostnad"@, "expense"@),
        (7440i32, "Förändring av pensionsstiftelsekapital"@, "expense"@),
        (7460i32, "Pensionsutbetalningar"@, "expense"@),
        (7470i32, "Förvaltnings- och kreditförsäkringsavgifter"@, "expense"@),
        (7490i32, "Övriga pensionskostnader"@, "expense"@),
        (7500i32, "Sociala och andra avgifter enligt lag och avtal (gruppkonto)"@, "expense"@),
        (7510i32, "Arbetsgivaravgifter 31,42 %"@, "expense"@),
        (7530i32, "Särskild löneskatt"@, "expense"@),
        (7550i32, "Avkastningsskatt på pensionsmedel"@, "expense"@),
        (7570i32, "Premier för arbetsmarknadsförsäkringar"@, "expense"@),
        (7580i32, "Gruppförsäkringspremier"@, "expense"@),
        (7590i32, "Övriga sociala och andra avgifter enligt lag och avtal"@, "expense"@),
        (7600i32, "Övriga personalkostnader (gruppkonto)"@, "expense"@),
        (7610i32, "Utbildning"@, "expense"@),
        (7620i32, "Sjuk- och hälsovård"@, "expense"@),
        (7630i32, "Personalrepresentation"@, "expense"@),
        (7650i32, "Sjuklöneförsäkring"@, "expense"@),
        (7670i32, "Förändring av personalstiftelsekapital"@, "expense"@),
        (7690i32, "Övriga personalkostnader"@, "expense"@),
        (7710i32, "Nedskrivningar av immateriella anläggningstillgångar"@, "expense"@),
        (7720i32, "Nedskrivningar av byggnader och mark"@, "expense"@),
        (7730i32, "Nedskrivningar av maskiner respektive inventarier"@, "expense"@),
        (7740i32, "Nedskrivningar av vissa omsättningstillgångar"@, "expense"@),
        (7760i32, "Återföring av nedskrivningar av immateriella anläggningstillgångar"@, "expense"@),
        (7770i32, "Återföring av nedskrivningar av byggnader och mark"@, "expense"@),
        (7780i32, "Återföring av nedskrivningar av maskiner respektive inventarier"@, "expense"@),
        (7790i32, "Återföring av nedskrivningar av vissa omsättningstillgångar"@, "expense"@),
        (7810i32, "Avskrivningar på immateriella anläggningstillgångar"@, "expense"@),
        (7820i32, "Avskrivningar på byggnader och markanläggningar"@, "expense"@),
        (7830i32, "Avskrivningar på maskiner respektive inventarier"@, "expense"@),
        (7840i32, "Avskrivningar på förbättringsutgifter på annans fastighet"@, "expense"@),
        (7940i32, "Orealiserade positiva/negativa värdeförändringar på säkringsinstrument"@, "expense"@),
        (7960i32, "Valutakursförluster på fordringar och skulder av rörelsekaraktär"@, "expense"@),
        (7970i32, "Förlust vid avyttring av immateriella och materiella anläggningstillgångar"@, "expense"@),
        (7990i32, "Övriga rörelsekostnader"@, "expense"@),
        (8010i32, "Utdelning på andelar i koncernföretag"@, "revenue"@),
        (8020i32, "Resultat vid försäljning av andelar i koncernföretag"@, "revenue"@),
        (8030i32, "Resultatandelar från handelsbolag (dotterföretag)"@, "revenue"@),
        (8070i32, "Nedskrivningar av andelar i och långfristiga fordringar hos koncernföretag"@, "expense"@),
        (8080i32, "Återföringar av nedskrivningar av andelar i och långfristiga fordringar hos koncernföretag"@, "revenue"@),
        (8110i32, "Utdelningar på andelar i intresseföretag och gemensamt styrda företag samt övriga företag som det finns ett ägarintresse i"@, "revenue"@),
        (8120i32, "Resultat vid försäljning av andelar i intresseföretag och gemensamt styrda företag samt övriga företag som det finns ett ägarintresse i"@, "revenue"@),
        (8130i32, "Resultatandelar från handelsbolag (intresseföretag och gemensamt styrda företag samt övriga företag som det finns ett ägarintresse i)"@, "revenue"@),
        (8170i32, "Nedskrivningar av andelar i och långfristiga fordringar hos intresseföretag och gemensamt styrda företag samt övriga företag som det finns ett ägarintresse i"@, "expense"@),
        (8180i32, "Återföringar av nedskrivningar av andelar i och långfristiga fordringar hos intresseföretag och gemensamt styrda företag samt övriga företag som det finns ett ägarintresse i"@, "revenue"@),
        (8210i32, "Utdelningar på andelar i andra företag"@, "revenue"@),
        (8220i32, "Resultat vid försäljning av värdepapper i och långfristiga fordringar hos andra företag"@, "revenue"@),
        (8230i32, "Valutakursdifferenser på långfristiga fordringar"@, "revenue"@),
        (8240i32, "Resultatandelar från handelsbolag (andra företag)"@, "revenue"@),
        (8250i32, "Ränteintäkter från långfristiga fordringar hos och värdepapper i andra företag"@, "revenue"@),
        (8260i32, "Ränteintäkter från långfristiga fordringar hos koncernföretag"@, "revenue"@),
        (8270i32, "Nedskrivningar av innehav av andelar i och fordringar hos andra företag"@, "expense"@),
        (8280i32, "Återföringar av nedskrivningar av andelar i och långfristiga fordringar hos andra företag"@, "revenue"@),
        (8290i32, "Värdering till verkligt värde, anläggningstillgångar"@, "revenue"@),
        (8310i32, "Ränteintäkter från omsättningstillgångar"@, "revenue"@),
        (8320i32, "Värdering till verkligt värde, omsättningstillgångar"@, "revenue"@),
        (8330i32, "Valutakursdifferenser på kortfristiga fordringar och placeringar"@, "revenue"@),
        (8340i32, "Utdelningar på kortfristiga placeringar"@, "revenue"@),
        (8350i32, "Resultat vid försäljning av kortfristiga placeringar"@, "revenue"@),
        (8360i32, "Övriga ränteintäkter från koncernföretag"@, "revenue"@),
        (8370i32, "Nedskrivningar av kortfristiga placeringar"@, "expense"@),
        (8380i32, "Återföringar av nedskrivningar av kortfristiga placeringar"@, "revenue"@),
        (8390i32, "Övriga finansiella intäkter"@, "revenue"@),
        (8400i32, "Räntekostnader (gruppkonto)"@, "expense"@),
        (8410i32, "Räntekostnader för långfristiga skulder"@, "expense"@),
        (8420i32, "Räntekostnader för kortfristiga skulder"@, "expense"@),
        (8430i32, "Valutakursdifferenser på skulder"@, "expense"@),
        (8440i32, "Erhållna räntebidrag"@, "revenue"@),
        (8450i32, "Orealiserade värdeförändringar på skulder"@, "expense"@),
        (8460i32, "Räntekostnader till koncernföretag"@, "expense"@),
        (8480i32, "Aktiverade ränteutgifter"@, "expense"@),
        (8490i32, "Övriga skuldrelaterade poster"@, "expense"@),
        (8810i32, "Förändring av periodiseringsfond"@, "expense"@),
        (8820i32, "Mottagna koncernbidrag"@, "revenue"@),
        (8830i32, "Lämnade koncernbidrag"@, "expense"@),
        (8840i32, "Lämnade gottgörelser"@, "expense"@),
        (8850i32, "Förändring av överavskrivningar"@, "expense"@),
        (8860i32, "Förändring av ersättningsfond"@, "expense"@),
        (8890i32, "Övriga bokslutsdispositioner"@, "expense"@),
        (8910i32, "Skatt som belastar årets resultat"@, "expense"@),
        (8920i32, "Skatt på grund av ändrad beskattning"@, "expense"@),
        (8930i32, "Restituerad skatt"@, "revenue"@),
        (8940i32, "Uppskjuten skatt"@, "expense"@),
        (8980i32, "Övriga skatter"@, "expense"@),
        (8990i32, "Resultat"@, "revenue"@),
        (8999i32, "Årets resultat"@, "revenue"@)
    ]
}

pub open spec fn chart_views(t: Seq<(i32, &str, &str)>) -> Seq<(i32, Seq<char>, Seq<char>)> {
    t.map_values(|e: (i32, &str, &str)| (e.0, e.1@, e.2@))
}

/// The accounts a new company is seeded with.
#[verifier::rlimit(100)]
pub fn bas_accounts() -> (t: Vec<(i32, &'static str, &'static str)>)
    ensures
        chart_views(t@) == bas_chart(),
{
    let t = vec![
        (1010, "Utvecklingsutgifter", "asset"),
        (1020, "Koncessioner m.m.", "asset"),
        (1030, "Patent", "asset"),
        (1040, "Licenser", "asset"),
        (1050, "Varumärken", "asset"),
        (1060, "Hyresrätter och liknande", "asset"),
        (1070, "Goodwill", "asset"),
        (1080, "Pågående projekt och förskott för immateriella anläggningstillgångar", "asset"),
        (1090, "Övriga immateriella anläggningstillgångar", "asset"),
        (1110, "Byggnader", "asset"),
        (1120, "Förbättringsutgifter på annans fastighet", "asset"),
        (1130, "Mark", "asset"),
        (1140, "Tomter och obebyggda markområden", "asset"),
        (1150, "Markanläggningar", "asset"),
        (1180, "Pågående nyanläggningar och förskott för byggnader och mark", "asset"),
        (1210, "Maskiner och andra tekniska anläggningar", "asset"),
        (1220, "Inventarier, verktyg och installationer", "asset"),
        (1230, "Maskiner och andra tekniska anläggningar (fritt konto)", "asset"),
        (1240, "Maskiner och andra tekniska anläggningar (fritt konto 2)", "asset"),
        (1250, "Inventarier, verktyg och installationer (fritt konto)", "asset"),
        (1260, "Inventarier, verktyg och installationer (fritt konto 2)", "asset"),
        (1280, "Pågående nyanläggningar och förskott för maskiner respektive inventarier", "asset"),
        (1290, "Övriga materiella anläggningstillgångar", "asset"),
        (1310, "Andelar i koncernföretag", "asset"),
        (1320, "Långfristiga fordringar hos koncernföretag", "asset"),
        (1330, "Andelar i intresseföretag och gemensamt styrda företag samt övriga företag som det finns ett ägarintresse i", "asset"),
        (1340, "Långfristiga fordringar hos intresseföretag och gemensamt styrda företag samt övriga företag som det finns ett ägarintresse i", "asset"),
        (1350, "Andra långfristiga värdepappersinnehav", "asset"),
        (1360, "Lån till delägare eller närstående, långfristig del", "asset"),
        (1370, "Uppskjuten skattefordran", "asset"),
        (1380, "Andra långfristiga fordringar", "asset"),
        (1410, "Lager av råvaror", "asset"),
        (1420, "Lager av tillsatsmaterial och förnödenheter", "asset"),
        (1440, "Produkter i arbete", "asset"),
        (1450, "Lager av färdiga varor", "asset"),
        (1460, "Lager av handelsvaror", "asset"),
        (1470, "Pågående arbeten", "asset"),
        (1480, "Förskott för varor och tjänster", "asset"),
        (1490, "Övriga lagertillgångar", "asset"),
        (1510, "Kundfordringar", "asset"),
        (1520, "Växelfordringar", "asset"),
        (1530, "Kontraktsfordringar", "asset"),
        (1550, "Konsignationsfordringar", "asset"),
        (1560, "Kundfordringar hos koncernföretag", "asset"),
        (1570, "Kundfordringar hos intresseföretag, gemensamt styrda företag och övriga företag som det finns ett ägarintresse i", "asset"),
        (1610, "Kortfristiga fordringar hos anställda", "asset"),
        (1620, "Upparbetad men ej fakturerad intäkt", "asset"),
        (1630, "Avräkning för skatter och avgifter (skattekonto)", "asset"),
        (1640, "Skattefordringar", "asset"),
        (1650, "Momsfordran", "asset"),
        (1660, "Kortfristiga fordringar hos koncernföretag", "asset"),
        (1670, "Kortfristiga fordringar hos intresseföretag, gemensamt styrda företag och övriga företag som det finns ett ägarintresse i", "asset"),
        (1680, "Andra kortfristiga fordringar", "asset"),
        (1690, "Fordringar för tecknat men ej inbetalt aktiekapital", "asset"),
        (1710, "Förutbetalda hyreskostnader", "asset"),
        (1720, "Förutbetalda leasingavgifter", "asset"),
        (1730, "Förutbetalda försäkringspremier", "asset"),
        (1740, "Förutbetalda räntekostnader", "asset"),
        (1750, "Upplupna hyresintäkter", "asset"),
        (1760, "Upplupna ränteintäkter", "asset"),
        (1770, "Tillgångar av kostnadsnatur", "asset"),
        (1780, "Upplupna avtalsintäkter", "asset"),
        (1790, "Övriga förutbetalda kostnader och upplupna intäkter", "asset"),
        (1810, "Andelar i börsnoterade företag", "asset"),
        (1820, "Obligationer", "asset"),
        (1830, "Konvertibla skuldebrev", "asset"),
        (1860, "Andelar i koncernföretag, kortfristigt", "asset"),
        (1880, "Andra kortfristiga placeringar", "asset"),
        (1890, "Nedskrivning av kortfristiga placeringar", "asset"),
        (1910, "Kassa", "asset"),
        (1920, "PlusGiro", "asset"),
        (1930, "Företagskonto", "asset"),
        (1940, "Övriga bankkonton", "asset"),
        (1950, "Bankcertifikat", "asset"),
        (1960, "Koncernkonto moderföretag", "asset"),
        (1970, "Särskilda bankkonton", "asset"),
        (1980, "Valutakonton", "asset"),
        (1990, "Redovisningsmedel", "asset"),
        (2010, "Eget kapital", "equity"),
        (2020, "Eget kapital", "equity"),
        (2030, "Eget kapital", "equity"),
        (2040, "Eget kapital", "equity"),
        (2050, "Avsättning till expansionsfond", "equity"),
        (2060, "Eget kapital i ideella föreningar, stiftelser och registrerade trossamfund", "equity"),
        (2070, "Ändamålsbestämda medel", "equity"),
        (2080, "Bundet eget kapital", "equity"),
        (2090, "Fritt eget kapital", "equity"),
        (2081, "Aktiekapital", "equity"),
        (2082, "Ej registrerat aktiekapital", "equity"),
        (2083, "Medlemsinsatser", "equity"),
        (2084, "Förlagsinsatser", "equity"),
        (2085, "Uppskrivningsfond", "equity"),
        (2086, "Reservfond", "equity"),
        (2087, "Bunden överkursfond", "equity"),
        (2088, "Fond för yttre underhåll", "equity"),
        (2089, "Fond för utvecklingsutgifter", "equity"),
        (2091, "Balanserad vinst eller förlust", "equity"),
        (2093, "Erhållna aktieägartillskott", "equity"),
        (2094, "Egna aktier", "equity"),
        (2095, "Fusionsresultat", "equity"),
        (2097, "Fri överkursfond", "equity"),
        (2098, "Vinst eller förlust från föregående år", "equity"),
        (2099, "Årets resultat", "equity"),
        (2110, "Periodiseringsfonder", "liability"),
        (2120, "Periodiseringsfond 2020", "liability"),
        (2130, "Periodiseringsfond 2020 – nr 2", "liability"),
        (2150, "Ackumulerade överavskrivningar", "liability"),
        (2160, "Ersättningsfond", "liability"),
        (2190, "Övriga obeskattade reserver", "liability"),
        (2210, "Avsättningar för pensioner enligt tryggandelagen", "liability"),
        (2220, "Avsättningar för garantier", "liability"),
        (2230, "Övriga avsättningar för pensioner och liknande förpliktelser", "liability"),
        (2240, "Avsättningar för uppskjutna skatter", "liability"),
        (2250, "Övriga avsättningar för skatter", "liability"),
        (2290, "Övriga avsättningar", "liability"),
        (2310, "Obligations- och förlagslån", "liability"),
        (2320, "Konvertibla lån och liknande", "liability"),
        (2330, "Kontokredit", "liability"),
        (2340, "Byggnadskreditiv", "liability"),
        (2350, "Andra långfristiga skulder till kreditinstitut", "liability"),
        (2360, "Långfristiga skulder till koncernföretag", "liability"),
        (2370, "Långfristiga skulder till intresseföretag, gemensamt styrda företag och övriga företag som det finns ett ägarintresse i", "liability"),
        (2390, "Övriga långfristiga skulder", "liability"),
        (2410, "Andra kortfristiga låneskulder till kreditinstitut", "liability"),
        (2420, "Förskott från kunder", "liability"),
        (2430, "Pågående arbeten", "liability"),
        (2440, "Leverantörsskulder", "liability"),
        (2450, "Fakturerad men ej upparbetad intäkt", "liability"),
        (2460, "Leverantörsskulder till koncernföretag", "liability"),
        (2470, "Leverantörsskulder till intresseföretag, gemensamt styrda företag och övriga företag som det finns ett ägarintresse i", "liability"),
        (2480, "Kontokredit, kortfristig", "liability"),
        (2490, "Övriga kortfristiga skulder till kreditinstitut, kunder och leverantörer", "liability"),
        (2510, "Skatteskulder", "liability"),
        (2610, "Utgående moms, 25 %", "liability"),
        (2620, "Utgående moms, 12 %", "liability"),
        (2630, "Utgående moms, 6 %", "liability"),
        (2640, "Ingående moms", "liability"),
        (2650, "Redovisningskonto för moms", "liability"),
        (2660, "Punktskatter", "liability"),
        (2670, "Utgående moms på försäljning inom EU, OSS", "liability"),
        (2710, "Personalskatt", "liability"),
        (2730, "Lagstadgade sociala avgifter och särskild löneskatt", "liability"),
        (2740, "Avtalade sociala avgifter", "liability"),
        (2750, "Utmätning i lön m.m.", "liability"),
        (2760, "Semestermedel", "liability"),
        (2790, "Övriga löneavdrag", "liability"),
        (2810, "Avräkning för factoring och belånade kontraktsfordringar", "liability"),
        (2820, "Kortfristiga skulder till anställda", "liability"),
        (2830, "Avräkning för annans räkning", "liability"),
        (2840, "Kortfristiga låneskulder", "liability"),
        (2850, "Avräkning för skatter och avgifter (skattekonto)", "liability"),
        (2860, "Kortfristiga skulder till koncernföretag", "liability"),
        (2870, "Kortfristiga skulder till intresseföretag, gemensamt styrda företag och övriga företag som det finns ett ägarintresse i", "liability"),
        (2880, "Skuld erhållna bidrag", "liability"),
        (2890, "Övriga kortfristiga skulder", "liability"),
        (2910, "Upplupna löner", "liability"),
        (2920, "Upplupna semesterlöner", "liability"),
        (2930, "Upplupna pensionskostnader", "liability"),
        (2940, "Upplupna lagstadgade sociala och andra avgifter", "liability"),
        (2950, "Upplupna avtalade sociala avgifter", "liability"),
        (2960, "Upplupna räntekostnader", "liability"),
        (2970, "Förutbetalda intäkter", "liability"),
        (2980, "Upplupna avtalskostnader", "liability"),
        (2990, "Övriga upplupna kostnader och förutbetalda intäkter", "liability"),
        (3000, "Försäljning inom Sverige", "revenue"),
        (3001, "Försäljning inom Sverige, 25 % moms", "revenue"),
        (3002, "Försäljning inom Sverige, 12 % moms", "revenue"),
        (3003, "Försäljning inom Sverige, 6 % moms", "revenue"),
        (3004, "Försäljning inom Sverige, momsfri", "revenue"),
        (3100, "Försäljning av varor utanför Sverige", "revenue"),
        (3200, "Försäljning VMB och omvänd moms", "revenue"),
        (3300, "Försäljning av tjänster utanför Sverige", "revenue"),
        (3400, "Försäljning, egna uttag", "revenue"),
        (3500, "Fakturerade kostnader (gruppkonto)", "revenue"),
        (3510, "Fakturerat emballage", "revenue"),
        (3520, "Fakturerade frakter", "revenue"),
        (3530, "Fakturerade tull- och speditionskostnader m.m.", "revenue"),
        (3540, "Faktureringsavgifter", "revenue"),
        (3550, "Fakturerade resekostnader", "revenue"),
        (3560, "Fakturerade kostnader till koncernföretag", "revenue"),
        (3570, "Fakturerade kostnader till intresseföretag, gemensamt styrda företag och övriga företag som det finns ett ägarintresse i", "revenue"),
        (3590, "Övriga fakturerade kostnader", "revenue"),
        (3600, "Rörelsens sidointäkter (gruppkonto)", "revenue"),
        (3610, "Försäljning av material", "revenue"),
        (3620, "Tillfällig uthyrning av personal", "revenue"),
        (3630, "Tillfällig uthyrning av transportmedel", "revenue"),
        (3670, "Intäkter från värdepapper", "revenue"),
        (3680, "Management fees", "revenue"),
        (3690, "Övriga sidointäkter", "revenue"),
        (3700, "Intäktskorrigeringar (gruppkonto)", "revenue"),
        (3710, "Ofördelade intäktsreduktioner", "revenue"),
        (3730, "Lämnade rabatter", "revenue"),
        (3740, "Öres- och kronutjämning", "revenue"),
        (3750, "Punktskatter", "revenue"),
        (3790, "Övriga intäktskorrigeringar", "revenue"),
        (3800, "Aktiverat arbete för egen räkning (gruppkonto)", "revenue"),
        (3840, "Aktiverat arbete (material)", "revenue"),
        (3850, "Aktiverat arbete (omkostnader)", "revenue"),
        (3870, "Aktiverat arbete (personal)", "revenue"),
        (3900, "Övriga rörelseintäkter (gruppkonto)", "revenue"),
        (3910, "Hyres- och arrendeintäkter", "revenue"),
        (3920, "Provisionsintäkter, licensintäkter och royalties", "revenue"),
        (3940, "Orealiserade negativa/positiva värdeförändringar på säkringsinstrument", "revenue"),
        (3950, "Återvunna, tidigare avskrivna kundfordringar", "revenue"),
        (3960, "Valutakursvinster på fordringar och skulder av rörelsekaraktär", "revenue"),
        (3970, "Vinst vid avyttring av immateriella och materiella anläggningstillgångar", "revenue"),
        (3980, "Erhållna offentliga bidrag", "revenue"),
        (3990, "Övriga ersättningar, bidrag och intäkter", "revenue"),
        (4000, "Inköp av handelsvaror (gruppkonto)", "expense"),
        (4010, "Inköp av handelsvaror i Sverige", "expense"),
        (4060, "Inköp av handelsvaror i Sverige, omvänd betalningsskyldighet", "expense"),
        (4070, "Inköp av handelsvaror från annat EU-land", "expense"),
        (4080, "Import av handelsvaror", "expense"),
        (4090, "Erhållna rabatter (Handelsvaror)", "expense"),
        (4200, "Sålda handelsvaror VMB (gruppkonto)", "expense"),
        (4210, "Sålda handelsvaror VMB", "expense"),
        (4300, "Inköp av råvaror och material i Sverige (gruppkonto)", "expense"),
        (4310, "Inköp av råvaror och material i Sverige", "expense"),
        (4400, "Inköp av råvaror och material, tjänster m.m. i Sverige, omvänd betalningsskyldighet (gruppkonto)", "expense"),
        (4410, "Inköp av råvaror och material i Sverige, omvänd betalningsskyldighet", "expense"),
        (4420, "Inköp av tjänster i Sverige, omvänd betalningsskyldighet", "expense"),
        (4500, "Inköp av råvaror och material, tjänster m.m. från utlandet (gruppkonto)", "expense"),
        (4510, "Inköp av råvaror och material från annat EU-land", "expense"),
        (4530, "Inköp av tjänster m.m. från utlandet", "expense"),
        (4540, "Import av råvaror och material", "expense"),
        (4600, "Inköp av tjänster, underentreprenader och legoarbeten i Sverige (gruppkonto)", "expense"),
        (4610, "Inköp av tjänster och underentreprenader", "expense"),
        (4670, "Inköp av legoarbeten", "expense"),
        (4700, "Reduktion av inköpspriser (gruppkonto)", "expense"),
        (4730, "Erhållna rabatter (Råvaror och förnödenheter)", "expense"),
        (4800, "Andra produktionskostnader (gruppkonto)", "expense"),
        (4810, "Kostnader för energi (Råvaror och förnödenheter)", "expense"),
        (4820, "Kostnader för drivmedel (Råvaror och förnödenheter)", "expense"),
        (4830, "Kostnader för resor (Råvaror och förnödenheter)", "expense"),
        (4840, "Kostnader för hyra av utrustning (Råvaror och förnödenheter)", "expense"),
        (4890, "Övriga produktionskostnader (Råvaror och förnödenheter)", "expense"),
        (4900, "Förändring av lager (gruppkonto)", "expense"),
        (4910, "Förändring av lager av råvaror", "expense"),
        (4920, "Förändring av lager av tillsatsmaterial och förnödenheter", "expense"),
        (4940, "Förändring av produkter i arbete", "expense"),
        (4950, "Förändring av lager av färdiga varor", "expense"),
        (4960, "Förändring av lager av handelsvaror", "expense"),
        (4970, "Förändring av pågående arbeten, nedlagda kostnader", "expense"),
        (4980, "Förändring av lager av värdepapper (Handelsvaror)", "expense"),
        (5000, "Lokalkostnader (gruppkonto)", "expense"),
        (5010, "Lokalhyra", "expense"),
        (5020, "El", "expense"),
        (5030, "Värme", "expense"),
        (5040, "Vatten och avlopp", "expense"),
        (5050, "Lokaltillbehör", "expense"),
        (5060, "Städning och renhållning", "expense"),
        (5070, "Reparation och underhåll av lokaler", "expense"),
        (5090, "Övriga lokalkostnader", "expense"),
        (5100, "Fastighetskostnader (gruppkonto)", "expense"),
        (5110, "Tomträttsavgäld/arrende", "expense"),
        (5120, "El", "expense"),
        (5130, "Värme", "expense"),
        (5140, "Vatten och avlopp", "expense"),
        (5160, "Städning och renhållning", "expense"),
        (5170, "Reparation och underhåll av fastighet", "expense"),
        (5190, "Övriga fastighetskostnader", "expense"),
        (5200, "Hyra av anläggningstillgångar (gruppkonto)", "expense"),
        (5210, "Hyra av maskiner och andra tekniska anläggningar, ej datorer och fordon", "expense"),
        (5220, "Hyra av inventarier och verktyg, ej datorer och fordon", "expense"),
        (5250, "Hyra av datorer", "expense"),
        (5290, "Hyra av övriga anläggningstillgångar, ej datorer och fordon", "expense"),
        (5300, "Energikostnader för drift (gruppkonto)", "expense"),
        (5310, "El för drift (ej råvaror och förnödenheter)", "expense"),
        (5320, "Gas för drift (ej råvaror och förnödenheter)", "expense"),
        (5330, "Eldningsolja för drift (ej råvaror och förnödenheter)", "expense"),
        (5340, "Stenkol och koks för drift (ej råvaror och förnödenheter)", "expense"),
        (5350, "Torv, träkol, ved, m.m. för drift (ej råvaror och förnödenheter)", "expense"),
        (5360, "Bensin, fotogen och motorbrännolja för drift (ej råvaror och förnödenheter)", "expense"),
        (5370, "Fjärrvärme, kyla och ånga för drift (ej råvaror och förnödenheter)", "expense"),
        (5380, "Vatten för drift (ej råvaror och förnödenheter)", "expense"),
        (5390, "Övriga energikostnader för drift (ej råvaror och förnödenheter)", "expense"),
        (5400, "Förbrukningsinventarier och förbrukningsmaterial (gruppkonto)", "expense"),
        (5410, "Förbrukningsinventarier", "expense"),
        (5420, "Programvaror", "expense"),
        (5430, "Transportinventarier", "expense"),
        (5440, "Förbrukningsemballage", "expense"),
        (5460, "Förbrukningsmaterial", "expense"),
        (5480, "Arbetskläder och skyddsmaterial", "expense"),
        (5500, "Reparation och underhåll (gruppkonto)", "expense"),
        (5510, "Reparation och underhåll av maskiner och andra tekniska anläggningar", "expense"),
        (5520, "Reparation och underhåll av inventarier, verktyg och datorer m.m.", "expense"),
        (5530, "Reparation och underhåll byggnads- och markinventarier", "expense"),
        (5550, "Reparation och underhåll av förbrukningsinventarier", "expense"),
        (5580, "Underhåll och tvätt av arbetskläder", "expense"),
        (5590, "Övriga kostnader för reparation och underhåll", "expense"),
        (5600, "Kostnader för transportmedel (gruppkonto)", "expense"),
        (5610, "Personbils- och mc-kostnader, m.m.", "expense"),
        (5620, "Lastbils- och busskostnader, m.m.", "expense"),
        (5630, "Truckkostnader", "expense"),
        (5640, "Kostnader för arbetsmaskiner", "expense"),
        (5650, "Traktorkostnader", "expense"),
        (5670, "Kostnader för fartyg och luftfartyg", "expense"),
        (5680, "Kostnader för rälsfordon", "expense"),
        (5690, "Kostnader för övriga transportmedel", "expense"),
        (5700, "Frakter och transporter (gruppkonto)", "expense"),
        (5710, "Frakter och försäkringar vid varudistribution", "expense"),
        (5720, "Tull- och speditionskostnader m.m.", "expense"),
        (5730, "Arbetstransporter", "expense"),
        (5790, "Övriga kostnader för frakter och transporter", "expense"),
        (5800, "Resekostnader (gruppkonto)", "expense"),
        (5810, "Biljetter", "expense"),
        (5820, "Hyrbilskostnader", "expense"),
        (5830, "Kost och logi", "expense"),
        (5890, "Övriga resekostnader", "expense"),
        (5900, "Reklam och PR (gruppkonto)", "expense"),
        (5910, "Annonsering", "expense"),
        (5920, "Utomhus- och trafikreklam", "expense"),
        (5930, "Reklamtrycksaker och direktreklam", "expense"),
        (5940, "Utställningar och mässor", "expense"),
        (5950, "Butiksreklam och återförsäljarreklam", "expense"),
        (5960, "Varuprover, reklamgåvor, presentreklam och tävlingar", "expense"),
        (5970, "Film-, radio-, TV- och Internetreklam", "expense"),
        (5980, "Sponsring", "expense"),
        (5990, "Övriga kostnader för reklam och PR", "expense"),
        (6000, "Övriga försäljningskostnader (gruppkonto)", "expense"),
        (6010, "Kataloger, prislistor m.m.", "expense"),
        (6020, "Egna facktidskrifter", "expense"),
        (6030, "Speciella orderkostnader", "expense"),
        (6040, "Kontokortsavgifter", "expense"),
        (6050, "Försäljningsprovisioner", "expense"),
        (6060, "Kreditförsäljningskostnader", "expense"),
        (6070, "Representation", "expense"),
        (6071, "Representation, avdragsgill", "expense"),
        (6072, "Representation, ej avdragsgill", "expense"),
        (6080, "Bankgarantier", "expense"),
        (6090, "Övriga försäljningskostnader", "expense"),
        (6100, "Kontorsmateriel och trycksaker (gruppkonto)", "expense"),
        (6110, "Kontorsmateriel", "expense"),
        (6150, "Trycksaker", "expense"),
        (6200, "Tele, data och post (gruppkonto)", "expense"),
        (6210, "Telekommunikation", "expense"),
        (6211, "Fast telefoni", "expense"),
        (6212, "Mobiltelefon", "expense"),
        (6230, "Datakommunikation", "expense"),
        (6250, "Porto", "expense"),
        (6290, "Övriga tele-, data- och postkostnader", "expense"),
        (6300, "Företagsförsäkringar och övriga riskkostnader (gruppkonto)", "expense"),
        (6310, "Företagsförsäkringar", "expense"),
        (6320, "Självrisker vid skada", "expense"),
        (6330, "Förluster i pågående arbeten", "expense"),
        (6340, "Lämnade skadestånd", "expense"),
        (6350, "Förluster på kundfordringar", "expense"),
        (6360, "Garantikostnader", "expense"),
        (6370, "Kostnader för bevakning och larm", "expense"),
        (6380, "Förluster på övriga kortfristiga fordringar", "expense"),
        (6390, "Övriga riskkostnader", "expense"),
        (6400, "Förvaltningskostnader (gruppkonto)", "expense"),
        (6420, "Ersättningar till revisor", "expense"),
        (6430, "Management fees", "expense"),
        (6440, "Årsredovisning och delårsrapporter", "expense"),
        (6450, "Bolagsstämma/års- eller föreningsstämma", "expense"),
        (6490, "Övriga förvaltningskostnader", "expense"),
        (6500, "Övriga externa tjänster (gruppkonto)", "expense"),
        (6510, "Mätningskostnader", "expense"),
        (6520, "Ritnings- och kopieringskostnader", "expense"),
        (6530, "Redovisningstjänster", "expense"),
        (6540, "IT-tjänster", "expense"),
        (6550, "Konsultarvoden", "expense"),
        (6560, "Serviceavgifter till branschorganisationer", "expense"),
        (6570, "Bankkostnader", "expense"),
        (6580, "Advokat- och rättegångskostnader", "expense"),
        (6590, "Övriga externa tjänster", "expense"),
        (6700, "Särskilt för ideella föreningar och stiftelser (gruppkonto)", "expense"),
        (6710, "Lämnade bidrag", "expense"),
        (6800, "Inhyrd personal (gruppkonto)", "expense"),
        (6810, "Inhyrd produktionspersonal", "expense"),
        (6820, "Inhyrd lagerpersonal", "expense"),
        (6830, "Inhyrd transportpersonal", "expense"),
        (6840, "Inhyrd kontors- och ekonomipersonal", "expense"),
        (6850, "Inhyrd IT-personal", "expense"),
        (6860, "Inhyrd marknads- och försäljningspersonal", "expense"),
        (6870, "Inhyrd restaurang- och butikspersonal", "expense"),
        (6880, "Inhyrda företagsledare", "expense"),
        (6890, "Övrig inhyrd personal", "expense"),
        (6900, "Övriga externa kostnader (gruppkonto)", "expense"),
        (6910, "Licensavgifter och royalties", "expense"),
        (6920, "Kostnader för egna patent", "expense"),
        (6930, "Kostnader för varumärken m.m.", "expense"),
        (6940, "Kontroll-, provnings- och stämpelavgifter", "expense"),
        (6950, "Tillsynsavgifter myndigheter", "expense"),
        (6970, "Tidningar, facklitteratur, m.m.", "expense"),
        (6980, "Föreningsavgifter", "expense"),
        (6990, "Övriga externa kostnader", "expense"),
        (7000, "Löner till kollektivanställda (gruppkonto)", "expense"),
        (7010, "Löner till kollektivanställda", "expense"),
        (7030, "Löner till kollektivanställda (utlandsanställda)", "expense"),
        (7080, "Löner till kollektivanställda för ej arbetad tid", "expense"),
        (7090, "Förändring av semesterlöneskuld", "expense"),
        (7200, "Löner till tjänstemän och företagsledare (gruppkonto)", "expense"),
        (7210, "Löner till tjänstemän", "expense"),
        (7220, "Löner till företagsledare", "expense"),
        (7230, "Löner till tjänstemän och ftgsledare (utlandsanställda)", "expense"),
        (7240, "Styrelsearvoden", "expense"),
        (7280, "Löner till tjänstemän och företagsledare för ej arbetad tid", "expense"),
        (7290, "Förändring av semesterlöneskuld", "expense"),
        (7300, "Kostnadsersättningar och förmåner (gruppkonto)", "expense"),
        (7310, "Kontanta extraersättningar", "expense"),
        (7320, "Traktamenten vid tjänsteresa", "expense"),
        (7330, "Bilersättningar", "expense"),
        (7350, "Ersättningar för föreskrivna arbetskläder", "expense"),
        (7370, "Representationsersättningar", "expense"),
        (7380, "Kostnader för förmåner till anställda", "expense"),
        (7390, "Övriga kostnadsersättningar och förmåner", "expense"),
        (7400, "Pensionskostnader (gruppkonto)", "expense"),
        (7410, "Pensionsförsäkringspremier", "expense"),
        (7420, "Förändring av pensionsskuld", "expense"),
        (7430, "Avdrag för räntedel i pensionskostnad", "expense"),
        (7440, "Förändring av pensionsstiftelsekapital", "expense"),
        (7460, "Pensionsutbetalningar", "expense"),
        (7470, "Förvaltnings- och kreditförsäkringsavgifter", "expense"),
        (7490, "Övriga pensionskostnader", "expense"),
        (7500, "Sociala och andra avgifter enligt lag och avtal (gruppkonto)", "expense"),
        (7510, "Arbetsgivaravgifter 31,42 %", "expense"),
        (7530, "Särskild löneskatt", "expense"),
        (7550, "Avkastningsskatt på pensionsmedel", "expense"),
        (7570, "Premier för arbetsmarknadsförsäkringar", "expense"),
        (7580, "Gruppförsäkringspremier", "expense"),
        (7590, "Övriga sociala och andra avgifter enligt lag och avtal", "expense"),
        (7600, "Övriga personalkostnader (gruppkonto)", "expense"),
        (7610, "Utbildning", "expense"),
        (7620, "Sjuk- och hälsovård", "expense"),
        (7630, "Personalrepresentation", "expense"),
        (7650, "Sjuklöneförsäkring", "expense"),
        (7670, "Förändring av personalstiftelsekapital", "expense"),
        (7690, "Övriga personalkostnader", "expense"),
        (7710, "Nedskrivningar av immateriella anläggningstillgångar", "expense"),
        (7720, "Nedskrivningar av byggnader och mark", "expense"),
        (7730, "Nedskrivningar av maskiner respektive inventarier", "expense"),
        (7740, "Nedskrivningar av vissa omsättningstillgångar", "expense"),
        (7760, "Återföring av nedskrivningar av immateriella anläggningstillgångar", "expense"),
        (7770, "Återföring av nedskrivningar av byggnader och mark", "expense"),
        (7780, "Återföring av nedskrivningar av maskiner respektive inventarier", "expense"),
        (7790, "Återföring av nedskrivningar av vissa omsättningstillgångar", "expense"),
        (7810, "Avskrivningar på immateriella anläggningstillgångar", "expense"),
        (7820, "Avskrivningar på byggnader och markanläggningar", "expense"),
        (7830, "Avskrivningar på maskiner respektive inventarier", "expense"),
        (7840, "Avskrivningar på förbättringsutgifter på annans fastighet", "expense"),
        (7940, "Orealiserade positiva/negativa värdeförändringar på säkringsinstrument", "expense"),
        (7960, "Valutakursförluster på fordringar och skulder av rörelsekaraktär", "expense"),
        (7970, "Förlust vid avyttring av immateriella och materiella anläggningstillgångar", "expense"),
        (7990, "Övriga rörelsekostnader", "expense"),
        (8010, "Utdelning på andelar i koncernföretag", "revenue"),
        (8020, "Resultat vid försäljning av andelar i koncernföretag", "revenue"),
        (8030, "Resultatandelar från handelsbolag (dotterföretag)", "revenue"),
        (8070, "Nedskrivningar av andelar i och långfristiga fordringar hos koncernföretag", "expense"),
        (8080, "Återföringar av nedskrivningar av andelar i och långfristiga fordringar hos koncernföretag", "revenue"),
        (8110, "Utdelningar på andelar i intresseföretag och gemensamt styrda företag samt övriga företag som det finns ett ägarintresse i", "revenue"),
        (8120, "Resultat vid försäljning av andelar i intresseföretag och gemensamt styrda företag samt övriga företag som det finns ett ägarintresse i", "revenue"),
        (8130, "Resultatandelar från handelsbolag (intresseföretag och gemensamt styrda företag samt övriga företag som det finns ett ägarintresse i)", "revenue"),
        (8170, "Nedskrivningar av andelar i och långfristiga fordringar hos intresseföretag och gemensamt styrda företag samt övriga företag som det finns ett ägarintresse i", "expense"),
        (8180, "Återföringar av nedskrivningar av andelar i och långfristiga fordringar hos intresseföretag och gemensamt styrda företag samt övriga företag som det finns ett ägarintresse i", "revenue"),
        (8210, "Utdelningar på andelar i andra företag", "revenue"),
        (8220, "Resultat vid försäljning av värdepapper i och långfristiga fordringar hos andra företag", "revenue"),
        (8230, "Valutakursdifferenser på långfristiga fordringar", "revenue"),
        (8240, "Resultatandelar från handelsbolag (andra företag)", "revenue"),
        (8250, "Ränteintäkter från långfristiga fordringar hos och värdepapper i andra företag", "revenue"),
        (8260, "Ränteintäkter från långfristiga fordringar hos koncernföretag", "revenue"),
        (8270, "Nedskrivningar av innehav av andelar i och fordringar hos andra företag", "expense"),
        (8280, "Återföringar av nedskrivningar av andelar i och långfristiga fordringar hos andra företag", "revenue"),
        (8290, "Värdering till verkligt värde, anläggningstillgångar", "revenue"),
        (8310, "Ränteintäkter från omsättningstillgångar", "revenue"),
        (8320, "Värdering till verkligt värde, omsättningstillgångar", "revenue"),
        (8330, "Valutakursdifferenser på kortfristiga fordringar och placeringar", "revenue"),
        (8340, "Utdelningar på kortfristiga placeringar", "revenue"),
        (8350, "Resultat vid försäljning av kortfristiga placeringar", "revenue"),
        (8360, "Övriga ränteintäkter från koncernföretag", "revenue"),
        (8370, "Nedskrivningar av kortfristiga placeringar", "expense"),
        (8380, "Återföringar av nedskrivningar av kortfristiga placeringar", "revenue"),
        (8390, "Övriga finansiella intäkter", "revenue"),
        (8400, "Räntekostnader (gruppkonto)", "expense"),
        (8410, "Räntekostnader för långfristiga skulder", "expense"),
        (8420, "Räntekostnader för kortfristiga skulder", "expense"),
        (8430, "Valutakursdifferenser på skulder", "expense"),
        (8440, "Erhållna räntebidrag", "revenue"),
        (8450, "Orealiserade värdeförändringar på skulder", "expense"),
        (8460, "Räntekostnader till koncernföretag", "expense"),
        (8480, "Aktiverade ränteutgifter", "expense"),
        (8490, "Övriga skuldrelaterade poster", "expense"),
        (8810, "Förändring av periodiseringsfond", "expense"),
        (8820, "Mottagna koncernbidrag", "revenue"),
        (8830, "Lämnade koncernbidrag", "expense"),
        (8840, "Lämnade gottgörelser", "expense"),
        (8850, "Förändring av överavskrivningar", "expense"),
        (8860, "Förändring av ersättningsfond", "expense"),
        (8890, "Övriga bokslutsdispositioner", "expense"),
        (8910, "Skatt som belastar årets resultat", "expense"),
        (8920, "Skatt på grund av ändrad beskattning", "expense"),
        (8930, "Restituerad skatt", "revenue"),
        (8940, "Uppskjuten skatt", "expense"),
        (8980, "Övriga skatter", "expense"),
        (8990, "Resultat", "revenue"),
        (8999, "Årets resultat", "revenue")
    ];
    assert(chart_views(t@) =~= bas_chart());
    t
}

/// The SRU codes of the accounts, as (account number, SRU code).
pub open spec fn sru_code_table() -> Seq<(i32, Seq<char>)> {
    seq![
        (1010i32, "7201"@),
        (1020i32, "7202"@),
        (1030i32, "7202"@),
        (1040i32, "7202"@),
        (1050i32, "7202"@),
        (1060i32, "7202"@),
        (1070i32, "7203"@),
        (1080i32, "7207"@),
        (1090i32, "7202"@),
        (1110i32, "7210"@),
        (1120i32, "7215"@),
        (1130i32, "7211"@),
        (1140i32, "7211"@),
        (1150i32, "7212"@),
        (1180i32, "7216"@),
        (1210i32, "7214"@),
        (1220i32, "7215"@),
        (1230i32, "7214"@),
        (1240i32, "7214"@),
        (1250i32, "7215"@),
        (1260i32, "7215"@),
        (1280i32, "7216"@),
        (1290i32, "7215"@),
        (1310i32, "7220"@),
        (1320i32, "7221"@),
        (1330i32, "7222"@),
        (1340i32, "7223"@),
        (1350i32, "7224"@),
        (1360i32, "7225"@),
        (1370i32, "7225"@),
        (1380i32, "7225"@),
        (1410i32, "7230"@),
        (1420i32, "7230"@),
        (1440i32, "7230"@),
        (1450i32, "7230"@),
        (1460i32, "7230"@),
        (1470i32, "7234"@),
        (1480i32, "7235"@),
        (1490i32, "7230"@),
        (1510i32, "7240"@),
        (1520i32, "7240"@),
        (1530i32, "7240"@),
        (1550i32, "7240"@),
        (1560i32, "7241"@),
        (1570i32, "7242"@),
        (1610i32, "7243"@),
        (1620i32, "7249"@),
        (1630i32, "7248"@),
        (1640i32, "7248"@),
        (1650i32, "7248"@),
        (1660i32, "7244"@),
        (1670i32, "7245"@),
        (1680i32, "7249"@),
        (1690i32, "7249"@),
        (1710i32, "7249"@),
        (1720i32, "7249"@),
        (1730i32, "7249"@),
        (1740i32, "7249"@),
        (1750i32, "7249"@),
        (1760i32, "7249"@),
        (1770i32, "7249"@),
        (1780i32, "7249"@),
        (1790i32, "7249"@),
        (1810i32, "7250"@),
        (1820i32, "7250"@),
        (1830i32, "7250"@),
        (1860i32, "7250"@),
        (1880i32, "7250"@),
        (1890i32, "7250"@),
        (1910i32, "7260"@),
        (1920i32, "7260"@),
        (1930i32, "7260"@),
        (1940i32, "7260"@),
        (1950i32, "7260"@),
        (1960i32, "7260"@),
        (1970i32, "7260"@),
        (1980i32, "7260"@),
        (1990i32, "7260"@),
        (2080i32, "7300"@),
        (2081i32, "7300"@),
        (2082i32, "7300"@),
        (2085i32, "7301"@),
        (2086i32, "7303"@),
        (2087i32, "7302"@),
        (2090i32, "7310"@),
        (2091i32, "7310"@),
        (2097i32, "7310"@),
        (2098i32, "7310"@),
        (2099i32, "7312"@),
        (2110i32, "7320"@),
        (2120i32, "7320"@),
        (2130i32, "7320"@),
        (2150i32, "7321"@),
        (2160i32, "7322"@),
        (2190i32, "7329"@),
        (2210i32, "7330"@),
        (2220i32, "7332"@),
        (2230i32, "7330"@),
        (2240i32, "7331"@),
        (2250i32, "7332"@),
        (2290i32, "7332"@),
        (2310i32, "7340"@),
        (2320i32, "7340"@),
        (2330i32, "7340"@),
        (2340i32, "7340"@),
        (2350i32, "7340"@),
        (2360i32, "7341"@),
        (2370i32, "7342"@),
        (2390i32, "7349"@),
        (2410i32, "7361"@),
        (2420i32, "7369"@),
        (2430i32, "7369"@),
        (2440i32, "7360"@),
        (2450i32, "7369"@),
        (2460i32, "7364"@),
        (2470i32, "7365"@),
        (2480i32, "7361"@),
        (2490i32, "7369"@),
        (2510i32, "7362"@),
        (2610i32, "7363"@),
        (2620i32, "7363"@),
        (2630i32, "7363"@),
        (2640i32, "7363"@),
        (2650i32, "7363"@),
        (2660i32, "7363"@),
        (2670i32, "7363"@),
        (2710i32, "7365"@),
        (2730i32, "7365"@),
        (2740i32, "7365"@),
        (2790i32, "7369"@),
        (2810i32, "7369"@),
        (2820i32, "7366"@),
        (2840i32, "7361"@),
        (2850i32, "7362"@),
        (2860i32, "7367"@),
        (2870i32, "7367"@),
        (2880i32, "7369"@),
        (2890i32, "7369"@),
        (2910i32, "7368"@),
        (2920i32, "7368"@),
        (2930i32, "7368"@),
        (2940i32, "7368"@),
        (2950i32, "7368"@),
        (2960i32, "7368"@),
        (2970i32, "7368"@),
        (2980i32, "7368"@),
        (2990i32, "7368"@),
        (3000i32, "7410"@),
        (3001i32, "7410"@),
        (3002i32, "7410"@),
        (3003i32, "7410"@),
        (3004i32, "7410"@),
        (3100i32, "7410"@),
        (3200i32, "7410"@),
        (3300i32, "7410"@),
        (3400i32, "7410"@),
        (3500i32, "7410"@),
        (3510i32, "7410"@),
        (3520i32, "7410"@),
        (3540i32, "7410"@),
        (3590i32, "7410"@),
        (3600i32, "7412"@),
        (3610i32, "7412"@),
        (3690i32, "7412"@),
        (3730i32, "7410"@),
        (3740i32, "7412"@),
        (3900i32, "7412"@),
        (3960i32, "7412"@),
        (3970i32, "7412"@),
        (3980i32, "7412"@),
        (3990i32, "7412"@),
        (4000i32, "7420"@),
        (4010i32, "7420"@),
        (4060i32, "7420"@),
        (4070i32, "7420"@),
        (4080i32, "7420"@),
        (4090i32, "7420"@),
        (4300i32, "7420"@),
        (4310i32, "7420"@),
        (4410i32, "7420"@),
        (4420i32, "7420"@),
        (4510i32, "7420"@),
        (4530i32, "7420"@),
        (4540i32, "7420"@),
        (4600i32, "7420"@),
        (4610i32, "7420"@),
        (4670i32, "7420"@),
        (4900i32, "7420"@),
        (4910i32, "7420"@),
        (4960i32, "7420"@),
        (5000i32, "7430"@),
        (5010i32, "7430"@),
        (5020i32, "7430"@),
        (5030i32, "7430"@),
        (5040i32, "7430"@),
        (5060i32, "7430"@),
        (5090i32, "7430"@),
        (5200i32, "7430"@),
        (5210i32, "7430"@),
        (5220i32, "7430"@),
        (5250i32, "7430"@),
        (5400i32, "7430"@),
        (5410i32, "7430"@),
        (5420i32, "7430"@),
        (5460i32, "7430"@),
        (5500i32, "7430"@),
        (5510i32, "7430"@),
        (5520i32, "7430"@),
        (5600i32, "7430"@),
        (5610i32, "7430"@),
        (5800i32, "7430"@),
        (5810i32, "7430"@),
        (5830i32, "7430"@),
        (5900i32, "7430"@),
        (5910i32, "7430"@),
        (6000i32, "7430"@),
        (6070i32, "7430"@),
        (6071i32, "7430"@),
        (6072i32, "7430"@),
        (6100i32, "7430"@),
        (6110i32, "7430"@),
        (6200i32, "7430"@),
        (6210i32, "7430"@),
        (6211i32, "7430"@),
        (6212i32, "7430"@),
        (6230i32, "7430"@),
        (6250i32, "7430"@),
        (6300i32, "7430"@),
        (6310i32, "7430"@),
        (6350i32, "7430"@),
        (6400i32, "7430"@),
        (6420i32, "7430"@),
        (6500i32, "7430"@),
        (6530i32, "7430"@),
        (6540i32, "7430"@),
        (6550i32, "7430"@),
        (6570i32, "7430"@),
        (6580i32, "7430"@),
        (6590i32, "7430"@),
        (6800i32, "7430"@),
        (6900i32, "7430"@),
        (6990i32, "7430"@),
        (7000i32, "7440"@),
        (7010i32, "7440"@),
        (7080i32, "7440"@),
        (7090i32, "7440"@),
        (7200i32, "7440"@),
        (7210i32, "7440"@),
        (7220i32, "7440"@),
        (7240i32, "7440"@),
        (7280i32, "7440"@),
        (7290i32, "7440"@),
        (7300i32, "7440"@),
        (7310i32, "7440"@),
        (7320i32, "7440"@),
        (7330i32, "7440"@),
        (7380i32, "7440"@),
        (7500i32, "7441"@),
        (7510i32, "7441"@),
        (7530i32, "7441"@),
        (7550i32, "7441"@),
        (7570i32, "7441"@),
        (7580i32, "7441"@),
        (7600i32, "7440"@),
        (7610i32, "7440"@),
        (7630i32, "7440"@),
        (7690i32, "7440"@),
        (7710i32, "7450"@),
        (7720i32, "7450"@),
        (7730i32, "7450"@),
        (7810i32, "7450"@),
        (7820i32, "7450"@),
        (7830i32, "7450"@),
        (7840i32, "7450"@),
        (7960i32, "7459"@),
        (7970i32, "7459"@),
        (7990i32, "7459"@),
        (8010i32, "7510"@),
        (8110i32, "7510"@),
        (8210i32, "7510"@),
        (8250i32, "7510"@),
        (8260i32, "7510"@),
        (8310i32, "7510"@),
        (8330i32, "7510"@),
        (8340i32, "7510"@),
        (8350i32, "7510"@),
        (8360i32, "7510"@),
        (8390i32, "7510"@),
        (8070i32, "7511"@),
        (8170i32, "7511"@),
        (8270i32, "7511"@),
        (8370i32, "7511"@),
        (8400i32, "7511"@),
        (8410i32, "7511"@),
        (8420i32, "7511"@),
        (8430i32, "7511"@),
        (8460i32, "7511"@),
        (8490i32, "7511"@),
        (8810i32, "7520"@),
        (8820i32, "7521"@),
        (8830i32, "7522"@),
        (8850i32, "7521"@),
        (8860i32, "7521"@),
        (8890i32, "7521"@),
        (8910i32, "7600"@),
        (8920i32, "7600"@),
        (8930i32, "7600"@),
        (8980i32, "7600"@)
    ]
}

pub open spec fn code_views(t: Seq<(i32, &str)>) -> Seq<(i32, Seq<char>)> {
    t.map_values(|e: (i32, &str)| (e.0, e.1@))
}

/// The SRU codes set on a new company's accounts, for the INK2 form.
#[verifier::rlimit(100)]
pub fn sru_codes() -> (t: Vec<(i32, &'static str)>)
    ensures
        code_views(t@) == sru_code_table(),
{
    let t = vec![
        (1010, "7201"),
        (1020, "7202"),
        (1030, "7202"),
        (1040, "7202"),
        (1050, "7202"),
        (1060, "7202"),
        (1070, "7203"),
        (1080, "7207"),
        (1090, "7202"),
        (1110, "7210"),
        (1120, "7215"),
        (1130, "7211"),
        (1140, "7211"),
        (1150, "7212"),
        (1180, "7216"),
        (1210, "7214"),
        (1220, "7215"),
        (1230, "7214"),
        (1240, "7214"),
        (1250, "7215"),
        (1260, "7215"),
        (1280, "7216"),
        (1290, "7215"),
        (1310, "7220"),
        (1320, "7221"),
        (1330, "7222"),
        (1340, "7223"),
        (1350, "7224"),
        (1360, "7225"),
        (1370, "7225"),
        (1380, "7225"),
        (1410, "7230"),
        (1420, "7230"),
        (1440, "7230"),
        (1450, "7230"),
        (1460, "7230"),
        (1470, "7234"),
        (1480, "7235"),
        (1490, "7230"),
        (1510, "7240"),
        (1520, "7240"),
        (1530, "7240"),
        (1550, "7240"),
        (1560, "7241"),
        (1570, "7242"),
        (1610, "7243"),
        (1620, "7249"),
        (1630, "7248"),
        (1640, "7248"),
        (1650, "7248"),
        (1660, "7244"),
        (1670, "7245"),
        (1680, "7249"),
        (1690, "7249"),
        (1710, "7249"),
        (1720, "7249"),
        (1730, "7249"),
        (1740, "7249"),
        (1750, "7249"),
        (1760, "7249"),
        (1770, "7249"),
        (1780, "7249"),
        (1790, "7249"),
        (1810, "7250"),
        (1820, "7250"),
        (1830, "7250"),
        (1860, "7250"),
        (1880, "7250"),
        (1890, "7250"),
        (1910, "7260"),
        (1920, "7260"),
        (1930, "7260"),
        (1940, "7260"),
        (1950, "7260"),
        (1960, "7260"),
        (1970, "7260"),
        (1980, "7260"),
        (1990, "7260"),
        (2080, "7300"),
        (2081, "7300"),
        (2082, "7300"),
        (2085, "7301"),
        (2086, "7303"),
        (2087, "7302"),
        (2090, "7310"),
        (2091, "7310"),
        (2097, "7310"),
        (2098, "7310"),
        (2099, "7312"),
        (2110, "7320"),
        (2120, "7320"),
        (2130, "7320"),
        (2150, "7321"),
        (2160, "7322"),
        (2190, "7329"),
        (2210, "7330"),
        (2220, "7332"),
        (2230, "7330"),
        (2240, "7331"),
        (2250, "7332"),
        (2290, "7332"),
        (2310, "7340"),
        (2320, "7340"),
        (2330, "7340"),
        (2340, "7340"),
        (2350, "7340"),
        (2360, "7341"),
        (2370, "7342"),
        (2390, "7349"),
        (2410, "7361"),
        (2420, "7369"),
        (2430, "7369"),
        (2440, "7360"),
        (2450, "7369"),
        (2460, "7364"),
        (2470, "7365"),
        (2480, "7361"),
        (2490, "7369"),
        (2510, "7362"),
        (2610, "7363"),
        (2620, "7363"),
        (2630, "7363"),
        (2640, "7363"),
        (2650, "7363"),
        (2660, "7363"),
        (2670, "7363"),
        (2710, "7365"),
        (2730, "7365"),
        (2740, "7365"),
        (2790, "7369"),
        (2810, "7369"),
        (2820, "7366"),
        (2840, "7361"),
        (2850, "7362"),
        (2860, "7367"),
        (2870, "7367"),
        (2880, "7369"),
        (2890, "7369"),
        (2910, "7368"),
        (2920, "7368"),
        (2930, "7368"),
        (2940, "7368"),
        (2950, "7368"),
        (2960, "7368"),
        (2970, "7368"),
        (2980, "7368"),
        (2990, "7368"),
        (3000, "7410"),
        (3001, "7410"),
        (3002, "7410"),
        (3003, "7410"),
        (3004, "7410"),
        (3100, "7410"),
        (3200, "7410"),
        (3300, "7410"),
        (3400, "7410"),
        (3500, "7410"),
        (3510, "7410"),
        (3520, "7410"),
        (3540, "7410"),
        (3590, "7410"),
        (3600, "7412"),
        (3610, "7412"),
        (3690, "7412"),
        (3730, "7410"),
        (3740, "7412"),
        (3900, "7412"),
        (3960, "7412"),
        (3970, "7412"),
        (3980, "7412"),
        (3990, "7412"),
        (4000, "7420"),
        (4010, "7420"),
        (4060, "7420"),
        (4070, "7420"),
        (4080, "7420"),
        (4090, "7420"),
        (4300, "7420"),
        (4310, "7420"),
        (4410, "7420"),
        (4420, "7420"),
        (4510, "7420"),
        (4530, "7420"),
        (4540, "7420"),
        (4600, "7420"),
        (4610, "7420"),
        (4670, "7420"),
        (4900, "7420"),
        (4910, "7420"),
        (4960, "7420"),
        (5000, "7430"),
        (5010, "7430"),
        (5020, "7430"),
        (5030, "7430"),
        (5040, "7430"),
        (5060, "7430"),
        (5090, "7430"),
        (5200, "7430"),
        (5210, "7430"),
        (5220, "7430"),
        (5250, "7430"),
        (5400, "7430"),
        (5410, "7430"),
        (5420, "7430"),
        (5460, "7430"),
        (5500, "7430"),
        (5510, "7430"),
        (5520, "7430"),
        (5600, "7430"),
        (5610, "7430"),
        (5800, "7430"),
        (5810, "7430"),
        (5830, "7430"),
        (5900, "7430"),
        (5910, "7430"),
        (6000, "7430"),
        (6070, "7430"),
        (6071, "7430"),
        (6072, "7430"),
        (6100, "7430"),
        (6110, "7430"),
        (6200, "7430"),
        (6210, "7430"),
        (6211, "7430"),
        (6212, "7430"),
        (6230, "7430"),
        (6250, "7430"),
        (6300, "7430"),
        (6310, "7430"),
        (6350, "7430"),
        (6400, "7430"),
        (6420, "7430"),
        (6500, "7430"),
        (6530, "7430"),
        (6540, "7430"),
        (6550, "7430"),
        (6570, "7430"),
        (6580, "7430"),
        (6590, "7430"),
        (6800, "7430"),
        (6900, "7430"),
        (6990, "7430"),
        (7000, "7440"),
        (7010, "7440"),
        (7080, "7440"),
        (7090, "7440"),
        (7200, "7440"),
        (7210, "7440"),
        (7220, "7440"),
        (7240, "7440"),
        (7280, "7440"),
        (7290, "7440"),
        (7300, "7440"),
        (7310, "7440"),
        (7320, "7440"),
        (7330, "7440"),
        (7380, "7440"),
        (7500, "7441"),
        (7510, "7441"),
        (7530, "7441"),
        (7550, "7441"),
        (7570, "7441"),
        (7580, "7441"),
        (7600, "7440"),
        (7610, "7440"),
        (7630, "7440"),
        (7690, "7440"),
        (7710, "7450"),
        (7720, "7450"),
        (7730, "7450"),
        (7810, "7450"),
        (7820, "7450"),
        (7830, "7450"),
        (7840, "7450"),
        (7960, "7459"),
        (7970, "7459"),
        (7990, "7459"),
        (8010, "7510"),
        (8110, "7510"),
        (8210, "7510"),
        (8250, "7510"),
        (8260, "7510"),
        (8310, "7510"),
        (8330, "7510"),
        (8340, "7510"),
        (8350, "7510"),
        (8360, "7510"),
        (8390, "7510"),
        (8070, "7511"),
        (8170, "7511"),
        (8270, "7511"),
        (8370, "7511"),
        (8400, "7511"),
        (8410, "7511"),
        (8420, "7511"),
        (8430, "7511"),
        (8460, "7511"),
        (8490, "7511"),
        (8810, "7520"),
        (8820, "7521"),
        (8830, "7522"),
        (8850, "7521"),
        (8860, "7521"),
        (8890, "7521"),
        (8910, "7600"),
        (8920, "7600"),
        (8930, "7600"),
        (8980, "7600")
    ];
    assert(code_views(t@) =~= sru_code_table());
    t
}

} // verus!
